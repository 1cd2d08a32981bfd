//! Tests of the backend state: geometry, markers, activation and deadlines.

use rmfb::gen1::{
    epdc_access_code, frame_length, panel_var_screeninfo, Gen1, MXCFB_DISABLE_EPDC_ACCESS,
    MXCFB_ENABLE_EPDC_ACCESS,
};
use rmfb::screeninfo::VarScreeninfo;
use rmfb::swtfb_client::{wait_deadline, EnvMarkers, SwtfbClient, MSG_TYPE};
use rmfb::swtfb_ipc::SwtfbIpcQueue;
use rmfb::update::UpdateRegion;

#[test]
fn fixed_geometry_matches_the_panel() {
    let mut markers = EnvMarkers::fresh();
    let c = SwtfbClient::new(3, true, &mut markers);
    let fix = c.get_fix_screeninfo();
    // stride is 1404 pixels at 2 bytes each; the buffer is stride x 1872.
    assert_eq!(fix.line_length, 1404 * 2);
    assert_eq!(fix.smem_len, fix.line_length * 1872);
    assert_eq!(fix.smem_len, 5_256_576);
}

#[test]
fn variable_geometry_is_rgb565() {
    let mut markers = EnvMarkers::fresh();
    let c = SwtfbClient::new(3, false, &mut markers);
    let var = c.get_var_screeninfo();
    assert_eq!(var.xres, 1404);
    assert_eq!(var.yres, 1872);
    assert_eq!(var.xres_virtual, 1404);
    assert_eq!(var.yres_virtual, 1872);
    assert_eq!(var.bits_per_pixel, 16);
    assert_eq!(var.grayscale, 0);
    assert_eq!((var.red.offset, var.red.length), (11, 5));
    assert_eq!((var.green.offset, var.green.length), (5, 6));
    assert_eq!((var.blue.offset, var.blue.length), (0, 5));
}

#[test]
fn second_client_is_nested_not_primary() {
    let mut markers = EnvMarkers::fresh();
    assert!(!markers.active);
    assert!(!markers.nested);
    let _first = SwtfbClient::new(1, true, &mut markers);
    assert!(markers.active);
    assert!(!markers.nested);
    let _second = SwtfbClient::new(1, true, &mut markers);
    assert!(markers.active);
    assert!(markers.nested);
}

#[test]
fn wait_request_honours_the_configuration() {
    let mut markers = EnvMarkers::fresh();
    let waiting = SwtfbClient::new(2, true, &mut markers);
    let (w, m) = waiting.wait_request(99).expect("waits are configured on");
    assert_eq!(m.mtype, MSG_TYPE::WAIT_t);
    assert_eq!(&w.sem_name[..14], b"/rm2fb.wait.99");

    let silent = SwtfbClient::new(2, false, &mut markers);
    assert!(silent.wait_request(99).is_none());
}

#[test]
fn wait_deadline_is_exactly_200ms_later() {
    assert_eq!(wait_deadline(5, 0), (5, 200_000_000));
    assert_eq!(wait_deadline(5, 799_999_999), (5, 999_999_999));
    assert_eq!(wait_deadline(5, 800_000_000), (6, 0));
    assert_eq!(wait_deadline(5, 999_999_999), (6, 199_999_999));
}

#[test]
fn panel_configuration_overwrites_and_keeps() {
    let mut cur = VarScreeninfo::zeroed();
    cur.bits_per_pixel = 16;
    cur.grayscale = 3;
    cur.xres = 800;
    let v = panel_var_screeninfo(&cur);
    assert_eq!(v.xres, 1404);
    assert_eq!(v.yres, 1872);
    assert_eq!(v.rotate, 1);
    assert_eq!(v.width, 0xffff_ffff);
    assert_eq!(v.height, 0xffff_ffff);
    assert_eq!(v.pixclock, 6250);
    assert_eq!(v.left_margin, 32);
    assert_eq!(v.right_margin, 326);
    assert_eq!(v.upper_margin, 4);
    assert_eq!(v.lower_margin, 12);
    assert_eq!(v.hsync_len, 44);
    assert_eq!(v.vsync_len, 1);
    assert_eq!(v.sync, 0);
    assert_eq!(v.vmode, 0);
    assert_eq!(v.accel_flags, 0);
    // queried values not in the fixed configuration are kept
    assert_eq!(v.bits_per_pixel, 16);
    assert_eq!(v.grayscale, 3);
}

#[test]
fn frame_length_is_stride_times_lines() {
    let mut markers = EnvMarkers::fresh();
    let c = SwtfbClient::new(0, false, &mut markers);
    let fix = c.get_fix_screeninfo();
    let var = c.get_var_screeninfo();
    assert_eq!(frame_length(&fix, &var), 5_256_576);
}

#[test]
fn markers_are_distinct_and_increasing() {
    let mut markers = EnvMarkers::fresh();
    let c = SwtfbClient::new(0, false, &mut markers);
    let fix = c.get_fix_screeninfo();
    let var = c.get_var_screeninfo();
    let mut g = Gen1::new(var, fix, frame_length(&fix, &var));
    let m1 = g.next_marker();
    let m2 = g.next_marker();
    let m3 = g.next_marker();
    assert_eq!(m1, 1);
    assert_eq!(m2, 2);
    assert_eq!(m3, 3);
    assert!(m1 < m2 && m2 < m3);
}

#[test]
fn geometry_cache_follows_successful_writes_only() {
    let mut markers = EnvMarkers::fresh();
    let c = SwtfbClient::new(0, false, &mut markers);
    let fix = c.get_fix_screeninfo();
    let var = c.get_var_screeninfo();
    let mut g = Gen1::new(var, fix, frame_length(&fix, &var));
    let mut wanted = var;
    wanted.rotate = 3;
    assert!(!g.note_apply_variable(&wanted, false));
    assert_eq!(g.var_screen_info.rotate, var.rotate);
    assert!(g.note_apply_variable(&wanted, true));
    assert_eq!(g.var_screen_info.rotate, 3);
}

#[test]
fn epdc_access_codes_differ_by_direction() {
    assert_eq!(epdc_access_code(true), MXCFB_ENABLE_EPDC_ACCESS);
    assert_eq!(epdc_access_code(false), MXCFB_DISABLE_EPDC_ACCESS);
    assert_eq!(MXCFB_ENABLE_EPDC_ACCESS, 0x4635);
    assert_eq!(MXCFB_DISABLE_EPDC_ACCESS, 0x4636);
}

#[test]
fn update_region_rejects_exactly_the_invalid() {
    assert!(UpdateRegion::new(0, 0, 100, 100, 1, 0).is_some());
    assert!(UpdateRegion::new(0, 0, 1404, 1872, 1, 0).is_some());
    // zero area
    assert!(UpdateRegion::new(10, 10, 10, 100, 1, 0).is_none());
    assert!(UpdateRegion::new(10, 10, 100, 10, 1, 0).is_none());
    // outside the panel
    assert!(UpdateRegion::new(0, 0, 1405, 100, 1, 0).is_none());
    assert!(UpdateRegion::new(0, 0, 100, 1873, 1, 0).is_none());
    // inverted corners
    assert!(UpdateRegion::new(100, 0, 50, 100, 1, 0).is_none());
    // oversized waveform or flags words
    assert!(UpdateRegion::new(0, 0, 100, 100, 0x8000_0000, 0).is_none());
    assert!(UpdateRegion::new(0, 0, 100, 100, 1, 0x8000_0000).is_none());
}

#[test]
fn region_converts_to_both_payload_forms() {
    let r = UpdateRegion::new(10, 20, 110, 220, 2, 4).expect("a valid region");
    let d = r.to_xochitl();
    assert_eq!((d.x1, d.y1, d.x2, d.y2), (10, 20, 110, 220));
    assert_eq!((d.waveform, d.flags), (2, 4));
    let rect = r.to_rect();
    assert_eq!((rect.top, rect.left), (20, 10));
    assert_eq!((rect.width, rect.height), (100, 200));
    let u = r.to_mxcfb(0, 9, 0);
    assert_eq!(u.update_region, rect);
    assert_eq!(u.waveform_mode, 2);
    assert_eq!(u.flags, 4);
    assert_eq!(u.update_marker, 9);
}

#[test]
fn ipc_queue_wraps_the_same_wire_format() {
    let q = SwtfbIpcQueue::new(5);
    let d = rmfb::swtfb_ipc::xochitl_data { x1: 1, y1: 2, x2: 3, y2: 4, waveform: 5, flags: 6 };
    let m = q.send_xochitl_update(&d);
    assert_eq!(m.mtype, rmfb::swtfb_ipc::MSG_TYPE::XO_t);
    let bytes = q.send(&m);

    let mut markers = EnvMarkers::fresh();
    let c = SwtfbClient::new(5, true, &mut markers);
    let dc = rmfb::swtfb_client::xochitl_data { x1: 1, y1: 2, x2: 3, y2: 4, waveform: 5, flags: 6 };
    let mc = c.send_xochitl_update(&dc);
    assert_eq!(bytes, c.send(&mc));
}
