use piv_ccc::card_id::CardId;
use piv_ccc::container::{ccc_template, CCC, CCC_ID_OFFS, CCC_SIZE, OBJ_CAPABILITY};
use piv_ccc::error::CccError;

const TEMPLATE: [u8; 51] = [
    0xf0, 0x15, 0xa0, 0x00, 0x00, 0x01, 0x16, 0xff, 0x02, 0x00, 0x00, 0x00, 0x00, 0x00, 0x00, 0x00,
    0x00, 0x00, 0x00, 0x00, 0x00, 0x00, 0x00, 0xf1, 0x01, 0x21, 0xf2, 0x01, 0x21, 0xf3, 0x00, 0xf4,
    0x01, 0x00, 0xf5, 0x01, 0x10, 0xf6, 0x00, 0xf7, 0x00, 0xfa, 0x00, 0xfb, 0x00, 0xfc, 0x00, 0xfd,
    0x00, 0xfe, 0x00,
];

fn sample_id() -> CardId {
    CardId([0xa1, 0xa2, 0xa3, 0xa4, 0xa5, 0xa6, 0xa7, 0xa8, 0xa9, 0xaa, 0xab, 0xac, 0xad, 0xae])
}

#[test]
fn constants_have_their_values() {
    assert_eq!(CCC_SIZE, 51);
    assert_eq!(CCC_ID_OFFS, 9);
    assert_eq!(OBJ_CAPABILITY, 0x005f_c107);
}

#[test]
fn template_has_the_fixed_bytes() {
    assert_eq!(ccc_template(), TEMPLATE);
}

#[test]
fn cccid_is_bytes_9_to_23() {
    let mut raw = [0u8; 51];
    for (i, b) in raw.iter_mut().enumerate() {
        *b = i as u8;
    }
    let id = CCC(raw).cccid().unwrap();
    assert_eq!(id, CardId([9, 10, 11, 12, 13, 14, 15, 16, 17, 18, 19, 20, 21, 22]));
}

#[test]
fn cccid_of_the_template_is_zero() {
    assert_eq!(CCC(TEMPLATE).cccid(), Ok(CardId([0u8; 14])));
}

#[test]
fn build_then_cccid_round_trips() {
    let id = sample_id();
    let ccc = CCC::build(&id);
    assert_eq!(ccc.cccid(), Ok(id));
}

#[test]
fn build_round_trips_random_ids() {
    for _ in 0..8 {
        let id = CardId::generate().expect("entropy is available");
        assert_eq!(CCC::build(&id).cccid(), Ok(id));
    }
}

#[test]
fn build_leaves_the_fixed_fields_alone() {
    let ccc = CCC::build(&sample_id());
    assert_eq!(ccc.0[..9], TEMPLATE[..9]);
    assert_eq!(ccc.0[9..23], sample_id().0[..]);
    assert_eq!(ccc.0[23..], TEMPLATE[23..]);
}

#[test]
fn fixed_fields_are_shared_between_cards() {
    let a = CCC::build(&sample_id());
    let b = CCC::build(&CardId([0x11; 14]));
    assert_eq!(a.0[..9], b.0[..9]);
    assert_eq!(a.0[23..], b.0[23..]);
    assert_ne!(a.0[9..23], b.0[9..23]);
}

#[test]
fn decode_takes_51_bytes_verbatim() {
    let mut raw = vec![0u8; 51];
    for (i, b) in raw.iter_mut().enumerate() {
        *b = (200 - i) as u8;
    }
    let ccc = CCC::decode(&raw).unwrap();
    assert_eq!(ccc.0[..], raw[..]);
}

#[test]
fn decode_rejects_shorter_responses() {
    for len in [0usize, 1, 9, 14, 23, 50] {
        let raw = vec![0u8; len];
        assert_eq!(CCC::decode(&raw).map(|c| c.0), Err(CccError::GenericError));
    }
}

#[test]
fn decode_rejects_longer_responses() {
    for len in [52usize, 53, 102, 1024] {
        let raw = vec![0u8; len];
        assert_eq!(CCC::decode(&raw).map(|c| c.0), Err(CccError::GenericError));
    }
}

#[test]
fn all_zero_container_renders_as_102_zeros() {
    let text = CCC([0u8; 51]).to_string();
    assert_eq!(text.len(), 102);
    assert!(text.chars().all(|c| c == '0'));
}

#[test]
fn rendering_starts_with_dead() {
    let mut raw = [0u8; 51];
    raw[0] = 0xde;
    raw[1] = 0xad;
    let text = CCC(raw).to_string();
    assert!(text.starts_with("dead"));
    assert_eq!(text.len(), 102);
}

#[test]
fn template_renders_in_lower_case_hex() {
    assert_eq!(
        CCC(TEMPLATE).to_string(),
        "f015a000000116ff020000000000000000000000000000f10121f20121f300f40100f50110f600f700fa00fb00fc00fd00fe00"
    );
}

#[test]
fn rendering_covers_every_nibble() {
    let mut raw = [0u8; 51];
    let bytes = [0x01u8, 0x23, 0x45, 0x67, 0x89, 0xab, 0xcd, 0xef, 0x9a, 0xf0];
    raw[..10].copy_from_slice(&bytes);
    let text = CCC(raw).to_string();
    assert_eq!(&text[..20], "0123456789abcdef9af0");
    assert_eq!(&text[20..], "0".repeat(82));
}

#[test]
fn debug_shows_the_raw_bytes() {
    let text = format!("{:?}", CCC([1u8; 51]));
    assert!(text.starts_with("CCC([1, 1, 1"));
}
