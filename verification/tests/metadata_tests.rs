use mygc::policy::immortalspace::CreateSpaceArgs;
use mygc::policy::immortalspace::ImmortalSpace;
use mygc::util::address::Address;
use mygc::util::side_metadata::MetadataError;
use mygc::util::side_metadata::SideMetadataSanity;
use mygc::util::side_metadata::SideMetadataSpec;

fn space_with_metadata(id: usize, metadata: SideMetadataSpec) -> ImmortalSpace {
    ImmortalSpace::new(CreateSpaceArgs {
        id,
        zeroed: true,
        contiguous: false,
        start: Address { raw: 0x10000 + id * 8 * 4096 },
        extent_pages: 8,
        metadata,
    })
}

#[test]
fn overlapping_space_metadata_is_rejected() {
    let first = space_with_metadata(0, SideMetadataSpec { offset: 0, num_bytes: 8192 });
    let second = space_with_metadata(1, SideMetadataSpec { offset: 4096, num_bytes: 4096 });
    let mut checker = SideMetadataSanity::new();
    assert_eq!(first.verify_side_metadata_sanity(&mut checker), Ok(()));
    assert_eq!(
        second.verify_side_metadata_sanity(&mut checker),
        Err(MetadataError::Overlap)
    );
}

#[test]
fn disjoint_space_metadata_is_accepted() {
    let first = space_with_metadata(0, SideMetadataSpec { offset: 0, num_bytes: 4096 });
    let second = space_with_metadata(1, SideMetadataSpec { offset: 4096, num_bytes: 4096 });
    let mut checker = SideMetadataSanity::new();
    assert_eq!(first.verify_side_metadata_sanity(&mut checker), Ok(()));
    assert_eq!(second.verify_side_metadata_sanity(&mut checker), Ok(()));
}

#[test]
fn touching_regions_in_either_order_are_disjoint() {
    let lo = SideMetadataSpec { offset: 0, num_bytes: 100 };
    let hi = SideMetadataSpec { offset: 100, num_bytes: 50 };
    let mut checker = SideMetadataSanity::new();
    assert_eq!(checker.verify_spec(hi), Ok(()));
    assert_eq!(checker.verify_spec(lo), Ok(()));
}

#[test]
fn empty_region_is_malformed() {
    let mut checker = SideMetadataSanity::new();
    assert_eq!(
        checker.verify_spec(SideMetadataSpec { offset: 16, num_bytes: 0 }),
        Err(MetadataError::InvalidSpec)
    );
}

#[test]
fn region_past_the_end_of_the_address_range_is_malformed() {
    let mut checker = SideMetadataSanity::new();
    assert_eq!(
        checker.verify_spec(SideMetadataSpec { offset: usize::MAX, num_bytes: 2 }),
        Err(MetadataError::InvalidSpec)
    );
    // A rejected region is not recorded: a valid one at the same place
    // still goes through.
    assert_eq!(
        checker.verify_spec(SideMetadataSpec { offset: 0, num_bytes: 1 }),
        Ok(())
    );
}

#[test]
fn rejection_reports_against_every_earlier_region() {
    let mut checker = SideMetadataSanity::new();
    assert_eq!(checker.verify_spec(SideMetadataSpec { offset: 0, num_bytes: 10 }), Ok(()));
    assert_eq!(checker.verify_spec(SideMetadataSpec { offset: 50, num_bytes: 10 }), Ok(()));
    assert_eq!(
        checker.verify_spec(SideMetadataSpec { offset: 55, num_bytes: 2 }),
        Err(MetadataError::Overlap)
    );
    assert_eq!(
        checker.verify_spec(SideMetadataSpec { offset: 5, num_bytes: 2 }),
        Err(MetadataError::Overlap)
    );
    assert_eq!(checker.verify_spec(SideMetadataSpec { offset: 20, num_bytes: 5 }), Ok(()));
}
