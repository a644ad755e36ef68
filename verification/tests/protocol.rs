use spdmlib::protocol::{
    SpdmPqcAsymAlgo, SpdmPqcReqAsymAlgo, SpdmRequestCapabilityFlags, SpdmResponseCapabilityFlags,
    SpdmVersion,
};

#[test]
fn repro_tv2_pqc_priority_inversion() {
    let mut req_asym = SpdmPqcReqAsymAlgo::from_bits(
        SpdmPqcReqAsymAlgo::ALG_MLDSA_44
            | SpdmPqcReqAsymAlgo::ALG_MLDSA_65
            | SpdmPqcReqAsymAlgo::ALG_MLDSA_87,
    );
    let peer = SpdmPqcReqAsymAlgo::from_bits(
        SpdmPqcReqAsymAlgo::ALG_MLDSA_44
            | SpdmPqcReqAsymAlgo::ALG_MLDSA_65
            | SpdmPqcReqAsymAlgo::ALG_MLDSA_87,
    );
    req_asym.prioritize(peer);

    let mut pqc_asym = SpdmPqcAsymAlgo::from_bits(
        SpdmPqcAsymAlgo::ALG_MLDSA_44
            | SpdmPqcAsymAlgo::ALG_MLDSA_65
            | SpdmPqcAsymAlgo::ALG_MLDSA_87,
    );
    let pqc_peer = SpdmPqcAsymAlgo::from_bits(
        SpdmPqcAsymAlgo::ALG_MLDSA_44
            | SpdmPqcAsymAlgo::ALG_MLDSA_65
            | SpdmPqcAsymAlgo::ALG_MLDSA_87,
    );
    pqc_asym.prioritize(pqc_peer);

    assert_eq!(
        pqc_asym,
        SpdmPqcAsymAlgo::from_bits(SpdmPqcAsymAlgo::ALG_MLDSA_87),
        "SpdmPqcAsymAlgo should select MLDSA-87 (strongest first)"
    );
    assert_eq!(
        req_asym,
        SpdmPqcReqAsymAlgo::from_bits(SpdmPqcReqAsymAlgo::ALG_MLDSA_44),
        "SpdmPqcReqAsymAlgo selects MLDSA-44 (weakest first)"
    );
}

#[test]
fn the_choice_is_one_that_both_sides_have() {
    let mut mine = SpdmPqcAsymAlgo::from_bits(
        SpdmPqcAsymAlgo::ALG_MLDSA_87 | SpdmPqcAsymAlgo::ALG_MLDSA_65,
    );
    mine.prioritize(SpdmPqcAsymAlgo::from_bits(
        SpdmPqcAsymAlgo::ALG_MLDSA_65 | SpdmPqcAsymAlgo::ALG_MLDSA_44,
    ));
    assert_eq!(mine.bits, SpdmPqcAsymAlgo::ALG_MLDSA_65);

    let mut none = SpdmPqcReqAsymAlgo::from_bits(SpdmPqcReqAsymAlgo::ALG_MLDSA_87);
    none.prioritize(SpdmPqcReqAsymAlgo::from_bits(SpdmPqcReqAsymAlgo::ALG_MLDSA_44));
    assert_eq!(none.bits, 0);
}

#[test]
fn versions_and_their_bytes() {
    let versions = [
        (SpdmVersion::SpdmVersion10, 0x10u8),
        (SpdmVersion::SpdmVersion11, 0x11),
        (SpdmVersion::SpdmVersion12, 0x12),
        (SpdmVersion::SpdmVersion13, 0x13),
        (SpdmVersion::SpdmVersion14, 0x14),
    ];
    for (version, byte) in versions {
        assert_eq!(version.get_u8(), byte);
        assert_eq!(SpdmVersion::from_u8(byte), Some(version));
    }
    assert_eq!(SpdmVersion::from_u8(0x0f), None);
    assert_eq!(SpdmVersion::from_u8(0x15), None);
    assert!(SpdmVersion::SpdmVersion12.at_least(SpdmVersion::SpdmVersion12));
    assert!(!SpdmVersion::SpdmVersion11.at_least(SpdmVersion::SpdmVersion12));
}

#[test]
fn a_mask_is_contained_only_as_a_whole() {
    let flags = SpdmRequestCapabilityFlags::from_bits(SpdmRequestCapabilityFlags::KEY_UPD_CAP);
    assert!(flags.contains(SpdmRequestCapabilityFlags::KEY_UPD_CAP));
    assert!(!flags.contains(
        SpdmRequestCapabilityFlags::KEY_UPD_CAP | SpdmRequestCapabilityFlags::HBEAT_CAP
    ));
    let flags = SpdmResponseCapabilityFlags::from_bits(0);
    assert!(!flags.contains(SpdmResponseCapabilityFlags::KEY_UPD_CAP));
}
