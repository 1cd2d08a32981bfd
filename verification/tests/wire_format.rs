//! Round-trip and exact-layout tests of the wire message format.

use rmfb::mxcfb::{mxcfb_alt_buffer_data, mxcfb_rect, mxcfb_update_data};
use rmfb::swtfb_client::{
    decode, wait_sem_data, wait_sem_name, xochitl_data, swtfb_update, swtfb_update_data,
    SwtfbClient, EnvMarkers, MSG_TYPE,
};
use rmfb::update::UpdateRegion;

fn client() -> SwtfbClient {
    let mut markers = EnvMarkers::fresh();
    SwtfbClient::new(7, true, &mut markers)
}

fn le_word(bytes: &[u8], off: usize) -> u32 {
    bytes[off] as u32
        | (bytes[off + 1] as u32) << 8
        | (bytes[off + 2] as u32) << 16
        | (bytes[off + 3] as u32) << 24
}

#[test]
fn xochitl_message_round_trips() {
    let c = client();
    let d = xochitl_data { x1: 3, y1: 14, x2: 159, y2: 265, waveform: 2, flags: 4 };
    let m = c.send_xochitl_update(&d);
    let bytes = c.send(&m);
    assert_eq!(bytes.len(), 516);
    let back = decode(&bytes).expect("a well-formed message must decode");
    assert_eq!(back.mtype, MSG_TYPE::XO_t);
    match back.data {
        swtfb_update_data::XochitlUpdate(d2) => assert_eq!(d2, d),
        _ => panic!("wrong payload variant"),
    }
}

#[test]
fn update_message_round_trips() {
    let c = client();
    let u = mxcfb_update_data {
        update_region: mxcfb_rect { top: 1, left: 2, width: 300, height: 400 },
        waveform_mode: 5,
        update_mode: 1,
        update_marker: 77,
        temp: -38,
        flags: 9,
        dither_mode: -1,
        quant_bit: 3,
        alt_buffer_data: mxcfb_alt_buffer_data {
            phys_addr: 0xdead_beef,
            width: 10,
            height: 20,
            alt_update_region: mxcfb_rect { top: 4, left: 3, width: 2, height: 1 },
        },
    };
    let m = c.send_mxcfb_update(&u);
    let bytes = c.send(&m);
    let back = decode(&bytes).expect("a well-formed message must decode");
    assert_eq!(back.mtype, MSG_TYPE::UPDATE_t);
    match back.data {
        swtfb_update_data::Update(u2) => assert_eq!(u2, u),
        _ => panic!("wrong payload variant"),
    }
}

#[test]
fn wait_message_round_trips() {
    let c = client();
    let w = wait_sem_name(31415);
    let m = c.send_wait_update(&w);
    let bytes = c.send(&m);
    let back = decode(&bytes).expect("a well-formed message must decode");
    assert_eq!(back.mtype, MSG_TYPE::WAIT_t);
    match back.data {
        swtfb_update_data::WaitUpdate(w2) => assert_eq!(w2.sem_name[..], w.sem_name[..]),
        _ => panic!("wrong payload variant"),
    }
}

#[test]
fn init_message_round_trips() {
    let m = swtfb_update { mtype: MSG_TYPE::INIT_t, data: swtfb_update_data::Init };
    let bytes = m.encode();
    assert_eq!(bytes[0..4], [1, 0, 0, 0]);
    assert!(bytes[4..].iter().all(|b| *b == 0));
    let back = decode(&bytes).expect("a well-formed message must decode");
    assert_eq!(back.mtype, MSG_TYPE::INIT_t);
    assert!(matches!(back.data, swtfb_update_data::Init));
}

#[test]
fn update_message_layout_is_byte_exact() {
    // The region (0,0)..(100,100) with the fast monochrome waveform and no
    // flags must go out as an UPDATE-tagged message whose payload starts with
    // the rectangle (top 0, left 0, width 100, height 100).
    let c = client();
    let region = UpdateRegion::new(0, 0, 100, 100, 1, 0).expect("a valid region");
    let u = region.to_mxcfb(0, 42, 0x1001);
    let m = c.send_mxcfb_update(&u);
    assert_eq!(m.mtype, MSG_TYPE::UPDATE_t);
    let bytes = c.send(&m);
    assert_eq!(bytes.len(), 516);
    assert_eq!(le_word(&bytes, 0), 2); // UPDATE discriminant
    assert_eq!(le_word(&bytes, 4), 0); // top
    assert_eq!(le_word(&bytes, 8), 0); // left
    assert_eq!(le_word(&bytes, 12), 100); // width
    assert_eq!(le_word(&bytes, 16), 100); // height
    assert_eq!(le_word(&bytes, 20), 1); // waveform mode
    assert_eq!(le_word(&bytes, 24), 0); // update mode
    assert_eq!(le_word(&bytes, 28), 42); // update marker
    assert_eq!(le_word(&bytes, 32), 0x1001); // temperature
    assert_eq!(le_word(&bytes, 36), 0); // flags
    assert!(bytes[76..].iter().all(|b| *b == 0));
}

#[test]
fn xochitl_message_layout_is_byte_exact() {
    let c = client();
    let d = xochitl_data { x1: 0, y1: 0, x2: 100, y2: 100, waveform: 1, flags: 0 };
    let m = c.send_xochitl_update(&d);
    let bytes = c.send(&m);
    assert_eq!(le_word(&bytes, 0), 3); // EXTERNAL_UPDATE discriminant
    assert_eq!(le_word(&bytes, 4), 0);
    assert_eq!(le_word(&bytes, 8), 0);
    assert_eq!(le_word(&bytes, 12), 100);
    assert_eq!(le_word(&bytes, 16), 100);
    assert_eq!(le_word(&bytes, 20), 1);
    assert_eq!(le_word(&bytes, 24), 0);
    assert!(bytes[28..].iter().all(|b| *b == 0));
}

#[test]
fn negative_coordinates_survive_the_round_trip() {
    let c = client();
    let d = xochitl_data { x1: -5, y1: -1, x2: 100, y2: 100, waveform: -3, flags: -1 };
    let m = c.send_xochitl_update(&d);
    let bytes = c.send(&m);
    match decode(&bytes).expect("a well-formed message must decode").data {
        swtfb_update_data::XochitlUpdate(d2) => assert_eq!(d2, d),
        _ => panic!("wrong payload variant"),
    }
}

#[test]
fn decode_rejects_wrong_length() {
    assert!(decode(&vec![2u8; 515]).is_none());
    assert!(decode(&vec![2u8; 517]).is_none());
    assert!(decode(&Vec::new()).is_none());
}

#[test]
fn decode_rejects_unknown_discriminant() {
    let mut bytes = vec![0u8; 516];
    bytes[0] = 7;
    assert!(decode(&bytes).is_none());
    let mut neg = vec![0u8; 516];
    neg[0] = 0xff;
    neg[1] = 0xff;
    neg[2] = 0xff;
    neg[3] = 0xff;
    assert!(decode(&neg).is_none());
}

#[test]
fn decode_rejects_dirty_padding() {
    let c = client();
    let d = xochitl_data { x1: 0, y1: 0, x2: 10, y2: 10, waveform: 1, flags: 0 };
    let m = c.send_xochitl_update(&d);
    let mut bytes = c.send(&m);
    bytes[515] = 1;
    assert!(decode(&bytes).is_none());
}

#[test]
fn wait_sem_name_is_prefix_pid_and_zeros() {
    let w: wait_sem_data = wait_sem_name(1234);
    assert_eq!(&w.sem_name[..16], b"/rm2fb.wait.1234");
    assert!(w.sem_name[16..].iter().all(|b| *b == 0));

    let w0 = wait_sem_name(0);
    assert_eq!(&w0.sem_name[..13], b"/rm2fb.wait.0");
    assert!(w0.sem_name[13..].iter().all(|b| *b == 0));

    let wmax = wait_sem_name(u32::MAX);
    assert_eq!(&wmax.sem_name[..22], b"/rm2fb.wait.4294967295");
    assert!(wmax.sem_name[22..].iter().all(|b| *b == 0));
}
