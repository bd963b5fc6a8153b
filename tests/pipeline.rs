use etherparse::PacketBuilder;
use pingxelflut_server::canvas::{Canvas, PendingUpdate};
use pingxelflut_server::color::{to_internal_color, Rgba};
use pingxelflut_server::command::{dispatch, dispatch_decoded, Action, Command};
use pingxelflut_server::frame::{extract_echo_request, SourceAddr};
use pingxelflut_server::queue::UpdateQueue;

const MAC_A: [u8; 6] = [2, 0, 0, 0, 0, 1];
const MAC_B: [u8; 6] = [2, 0, 0, 0, 0, 2];
const SERVER_V4: [u8; 4] = [198, 51, 100, 1];

fn echo_request_v4(source: [u8; 4], payload: &[u8]) -> Vec<u8> {
    let builder = PacketBuilder::ethernet2(MAC_A, MAC_B)
        .ipv4(source, SERVER_V4, 64)
        .icmpv4_echo_request(7, 1);
    let mut frame = Vec::with_capacity(builder.size(payload.len()));
    builder.write(&mut frame, payload).unwrap();
    frame
}

fn echo_reply_v4(source: [u8; 4], payload: &[u8]) -> Vec<u8> {
    let builder = PacketBuilder::ethernet2(MAC_A, MAC_B)
        .ipv4(source, SERVER_V4, 64)
        .icmpv4_echo_reply(7, 1);
    let mut frame = Vec::with_capacity(builder.size(payload.len()));
    builder.write(&mut frame, payload).unwrap();
    frame
}

fn unreachable_v4(source: [u8; 4], payload: &[u8]) -> Vec<u8> {
    let builder = PacketBuilder::ethernet2(MAC_A, MAC_B)
        .ipv4(source, SERVER_V4, 64)
        .icmpv4_raw(3, 1, [0, 0, 0, 0]);
    let mut frame = Vec::with_capacity(builder.size(payload.len()));
    builder.write(&mut frame, payload).unwrap();
    frame
}

fn echo_request_v6(source: [u8; 16], payload: &[u8]) -> Vec<u8> {
    let mut dest = [0u8; 16];
    dest[15] = 1;
    let builder = PacketBuilder::ethernet2(MAC_A, MAC_B)
        .ipv6(source, dest, 64)
        .icmpv6_echo_request(7, 1);
    let mut frame = Vec::with_capacity(builder.size(payload.len()));
    builder.write(&mut frame, payload).unwrap();
    frame
}

fn udp_v4(source: [u8; 4], payload: &[u8]) -> Vec<u8> {
    let builder = PacketBuilder::ethernet2(MAC_A, MAC_B)
        .ipv4(source, SERVER_V4, 64)
        .udp(4000, 5000);
    let mut frame = Vec::with_capacity(builder.size(payload.len()));
    builder.write(&mut frame, payload).unwrap();
    frame
}

const RED: u32 = 0xFF0000FF;
const BLUE: u32 = 0x0000FFFF;

#[test]
fn color_conversion_splits_bytes() {
    assert_eq!(to_internal_color(0xFF0000FF), Rgba { r: 255, g: 0, b: 0, a: 255 });
    assert_eq!(to_internal_color(0x12345678), Rgba { r: 0x12, g: 0x34, b: 0x56, a: 0x78 });
    assert_eq!(to_internal_color(0), Rgba { r: 0, g: 0, b: 0, a: 0 });
}

#[test]
fn new_canvas_is_blank() {
    let c = Canvas::new(4, 3);
    assert_eq!(c.width(), 4);
    assert_eq!(c.height(), 3);
    assert_eq!(c.rgba_bytes(), vec![0u8; 4 * 4 * 3]);
    assert_eq!(c.pixel(3, 2), Some(Rgba { r: 0, g: 0, b: 0, a: 0 }));
    assert_eq!(c.pixel(4, 0), None);
    assert_eq!(c.pixel(0, 3), None);
}

#[test]
fn empty_canvas_has_no_cells() {
    let mut c = Canvas::new(0, 0);
    c.apply_update(PendingUpdate { x: 0, y: 0, color: to_internal_color(RED) });
    assert!(c.rgba_bytes().is_empty());
    assert_eq!(c.pixel(0, 0), None);
}

#[test]
fn update_lands_in_row_major_cell() {
    let mut c = Canvas::new(3, 2);
    c.apply_update(PendingUpdate { x: 2, y: 1, color: Rgba { r: 1, g: 2, b: 3, a: 4 } });
    let bytes = c.rgba_bytes();
    let i = 4 * (1 * 3 + 2);
    assert_eq!(&bytes[i..i + 4], &[1, 2, 3, 4]);
    assert_eq!(bytes.iter().filter(|b| **b != 0).count(), 4);
}

#[test]
fn largest_corner_is_writable() {
    let mut c = Canvas::new(300, 200);
    c.apply_update(PendingUpdate { x: 299, y: 199, color: to_internal_color(BLUE) });
    assert_eq!(c.pixel(299, 199), Some(to_internal_color(BLUE)));
    c.apply_update(PendingUpdate { x: u16::MAX, y: u16::MAX, color: to_internal_color(RED) });
    assert_eq!(c.pixel(299, 199), Some(to_internal_color(BLUE)));
}

#[test]
fn out_of_range_updates_leave_framebuffer_unchanged() {
    let mut c = Canvas::new(8, 8);
    c.apply_update(PendingUpdate { x: 1, y: 1, color: to_internal_color(RED) });
    let before = c.rgba_bytes();
    let updates = vec![
        PendingUpdate { x: 8, y: 0, color: to_internal_color(BLUE) },
        PendingUpdate { x: 0, y: 8, color: to_internal_color(BLUE) },
        PendingUpdate { x: 100, y: 100, color: to_internal_color(BLUE) },
    ];
    c.apply_updates(&updates);
    assert_eq!(c.rgba_bytes(), before);
}

#[test]
fn last_write_wins_on_one_cell() {
    let mut c = Canvas::new(8, 8);
    let updates = vec![
        PendingUpdate { x: 3, y: 4, color: to_internal_color(RED) },
        PendingUpdate { x: 3, y: 4, color: to_internal_color(0x00FF00FF) },
        PendingUpdate { x: 3, y: 4, color: to_internal_color(BLUE) },
    ];
    c.apply_updates(&updates);
    assert_eq!(c.pixel(3, 4), Some(to_internal_color(BLUE)));
}

#[test]
fn dispatch_per_variant() {
    let src = SourceAddr::V4([192, 0, 2, 9]);
    assert_eq!(
        dispatch(Command::SizeQuery, src, 640, 480),
        Action::SendSizeReply { to: src, width: 640, height: 480 }
    );
    assert_eq!(dispatch(Command::SizeReply { width: 1, height: 2 }, src, 640, 480), Action::Ignore);
    assert_eq!(
        dispatch(Command::SetPixel { x: 700, y: 3, color: RED }, src, 640, 480),
        Action::Enqueue(PendingUpdate { x: 700, y: 3, color: Rgba { r: 255, g: 0, b: 0, a: 255 } })
    );
}

#[test]
fn undecodable_payload_is_ignored() {
    let src = SourceAddr::V4([192, 0, 2, 9]);
    assert_eq!(dispatch_decoded(None, src, 640, 480), Action::Ignore);
    assert_eq!(
        dispatch_decoded(Some(Command::SizeQuery), src, 640, 480),
        Action::SendSizeReply { to: src, width: 640, height: 480 }
    );
}

#[test]
fn echo_request_v4_is_extracted() {
    let frame = echo_request_v4([192, 0, 2, 5], &[0xaa, 1, 2]);
    let req = extract_echo_request(&frame).unwrap();
    assert_eq!(req.source, SourceAddr::V4([192, 0, 2, 5]));
    assert_eq!(req.payload, vec![0xaa, 1, 2]);
}

#[test]
fn echo_request_v6_is_extracted() {
    let mut source = [0u8; 16];
    source[0] = 0x20;
    source[1] = 0x01;
    source[2] = 0x0d;
    source[3] = 0xb8;
    source[15] = 5;
    let frame = echo_request_v6(source, &[9, 8, 7]);
    let req = extract_echo_request(&frame).unwrap();
    assert_eq!(req.source, SourceAddr::V6(source));
    assert_eq!(req.payload, vec![9, 8, 7]);
}

#[test]
fn non_echo_request_traffic_yields_nothing() {
    assert!(extract_echo_request(&echo_reply_v4([192, 0, 2, 5], &[1, 2, 3])).is_none());
    assert!(extract_echo_request(&unreachable_v4([192, 0, 2, 5], &[1, 2, 3])).is_none());
    assert!(extract_echo_request(&udp_v4([192, 0, 2, 5], &[1, 2, 3])).is_none());
}

#[test]
fn malformed_frames_yield_nothing() {
    let frame = echo_request_v4([192, 0, 2, 5], &[1, 2, 3, 4]);
    for len in 0..frame.len() - 4 {
        assert!(extract_echo_request(&frame[..len]).is_none());
    }
    assert!(extract_echo_request(&[]).is_none());
    assert!(extract_echo_request(&[0xff; 13]).is_none());
    // processing goes on after a bad frame
    assert!(extract_echo_request(&frame).is_some());
}

#[test]
fn empty_echo_payload_is_kept_empty() {
    let frame = echo_request_v4([192, 0, 2, 5], &[]);
    let req = extract_echo_request(&frame).unwrap();
    assert!(req.payload.is_empty());
}

#[test]
fn scenario_set_pixel_end_to_end() {
    let frame = echo_request_v4([192, 0, 2, 77], &[0xcc, 0, 10, 0, 20, 0xff, 0, 0, 0xff]);
    let req = extract_echo_request(&frame).unwrap();
    let queue = UpdateQueue::new();
    let mut canvas = Canvas::new(64, 32);
    let action = queue.handle(Command::SetPixel { x: 10, y: 20, color: 0xFF0000FF }, req.source, 64, 32);
    assert!(matches!(action, Action::Enqueue(_)));
    let applied = canvas.apply_pending(&queue);
    assert_eq!(applied.len(), 1);
    assert_eq!(canvas.pixel(10, 20), Some(to_internal_color(0xFF0000FF)));
    assert_eq!(canvas.pixel(10, 20), Some(Rgba { r: 255, g: 0, b: 0, a: 255 }));
}

#[test]
fn scenario_size_query_gets_one_reply() {
    let frame = echo_request_v4([192, 0, 2, 5], &[0xaa]);
    let req = extract_echo_request(&frame).unwrap();
    let queue = UpdateQueue::new();
    let action = queue.handle(Command::SizeQuery, req.source, 64, 32);
    assert_eq!(
        action,
        Action::SendSizeReply { to: SourceAddr::V4([192, 0, 2, 5]), width: 64, height: 32 }
    );
    assert!(queue.drain().is_empty());
}

#[test]
fn scenario_boundary_pixel_is_dropped() {
    let queue = UpdateQueue::new();
    let mut canvas = Canvas::new(64, 32);
    let before = canvas.rgba_bytes();
    let src = SourceAddr::V4([192, 0, 2, 5]);
    queue.handle(Command::SetPixel { x: 64, y: 0, color: 0x12345678 }, src, 64, 32);
    let applied = canvas.apply_pending(&queue);
    assert_eq!(applied.len(), 1);
    assert_eq!(canvas.rgba_bytes(), before);
}

#[test]
fn scenario_two_producers_follow_drain_order() {
    let queue = UpdateQueue::new();
    let mut canvas = Canvas::new(16, 16);
    let a = SourceAddr::V4([192, 0, 2, 1]);
    let b = SourceAddr::V4([192, 0, 2, 2]);
    queue.handle(Command::SetPixel { x: 5, y: 5, color: RED }, a, 16, 16);
    queue.handle(Command::SetPixel { x: 5, y: 5, color: BLUE }, b, 16, 16);
    let applied = canvas.apply_pending(&queue);
    assert_eq!(applied.len(), 2);
    let last = applied[1].color;
    assert_eq!(canvas.pixel(5, 5), Some(last));
    assert_eq!(last, to_internal_color(BLUE));
    assert!(queue.drain().is_empty());
}

#[test]
fn size_reply_command_changes_nothing() {
    let queue = UpdateQueue::new();
    let mut canvas = Canvas::new(4, 4);
    let before = canvas.rgba_bytes();
    let src = SourceAddr::V4([192, 0, 2, 5]);
    assert_eq!(queue.handle(Command::SizeReply { width: 4, height: 4 }, src, 4, 4), Action::Ignore);
    assert!(canvas.apply_pending(&queue).is_empty());
    assert_eq!(canvas.rgba_bytes(), before);
}
