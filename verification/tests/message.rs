use window_core::geometry::Rect;
use window_core::input::MouseButton;
use window_core::message::{
    key_code, packed_size, wheel_delta, Notification, WM_CLOSE, WM_ERASEBKGND, WM_KEYDOWN,
    WM_KEYUP, WM_LBUTTONDOWN, WM_LBUTTONUP, WM_MBUTTONDOWN, WM_MBUTTONUP, WM_MOUSEWHEEL, WM_PAINT,
    WM_RBUTTONDOWN, WM_RBUTTONUP, WM_SIZE, WM_SIZING,
};

#[test]
fn message_numbers_are_the_platform_ones() {
    assert_eq!(WM_SIZE, 0x0005);
    assert_eq!(WM_PAINT, 0x000F);
    assert_eq!(WM_CLOSE, 0x0010);
    assert_eq!(WM_ERASEBKGND, 0x0014);
    assert_eq!(WM_KEYDOWN, 0x0100);
    assert_eq!(WM_KEYUP, 0x0101);
    assert_eq!(WM_LBUTTONDOWN, 0x0201);
    assert_eq!(WM_LBUTTONUP, 0x0202);
    assert_eq!(WM_RBUTTONDOWN, 0x0204);
    assert_eq!(WM_RBUTTONUP, 0x0205);
    assert_eq!(WM_MBUTTONDOWN, 0x0207);
    assert_eq!(WM_MBUTTONUP, 0x0208);
    assert_eq!(WM_MOUSEWHEEL, 0x020A);
    assert_eq!(WM_SIZING, 0x0214);
}

#[test]
fn key_code_is_the_low_byte() {
    assert_eq!(key_code(0x41), 0x41);
    assert_eq!(key_code(0x141), 0x41);
    assert_eq!(key_code(0xFFFF_FF00), 0x00);
    assert_eq!(key_code(usize::MAX), 0xFF);
    for wparam in 0..2048usize {
        assert_eq!(key_code(wparam), wparam as u8);
    }
}

#[test]
fn wheel_delta_is_the_signed_high_word() {
    assert_eq!(wheel_delta(0x0078_0000), 120);
    assert_eq!(wheel_delta(0xFF88_0000), -120);
    assert_eq!(wheel_delta(0x0000_FFFF), 0);
    assert_eq!(wheel_delta(0x7FFF_0008), i16::MAX);
    assert_eq!(wheel_delta(0x8000_0008), i16::MIN);
    assert_eq!(wheel_delta(0xFFFF_0000), -1);
    for high in 0..=0xFFFFusize {
        let wparam = (high << 16) | 0x1234;
        assert_eq!(wheel_delta(wparam), ((wparam as u32 >> 16) & 0xFFFF) as u16 as i16);
    }
}

#[test]
fn packed_size_reads_low_and_high_word() {
    assert_eq!(packed_size(0x0258_0320), (800, 600));
    assert_eq!(packed_size(0), (0, 0));
    assert_eq!(packed_size(0xFFFF), (0xFFFF, 0));
    assert_eq!(packed_size(0x7FFF_0000), (0, 0x7FFF));
    assert_eq!(packed_size(-1), (0xFFFF, 0xFFFF));
    assert_eq!(packed_size(-2), (0xFFFE, 0xFFFF));
    assert_eq!(packed_size(-65536), (0, 0xFFFF));
    assert_eq!(packed_size(-65537), (0xFFFF, 0xFFFE));
    assert_eq!(packed_size(isize::MIN), (0, if isize::BITS == 32 { 0x8000 } else { 0 }));
    assert_eq!(packed_size(isize::MAX), (0xFFFF, if isize::BITS == 32 { 0x7FFF } else { 0xFFFF }));
    for value in [-70000isize, -40000, -300, -3, 5, 70000, 0x1234_5678] {
        let dword = value as u32;
        assert_eq!(packed_size(value), (dword & 0xFFFF, (dword >> 16) & 0xFFFF));
    }
}

#[test]
fn decode_names_each_message() {
    assert_eq!(Notification::decode(WM_PAINT, 1, 2, None), Notification::Paint);
    assert_eq!(Notification::decode(WM_ERASEBKGND, 1, 2, None), Notification::EraseBackground);
    assert_eq!(Notification::decode(WM_CLOSE, 1, 2, None), Notification::Close);
    assert_eq!(Notification::decode(WM_KEYDOWN, 0x1B, 2, None), Notification::KeyDown(0x1B));
    assert_eq!(Notification::decode(WM_KEYUP, 0x31B, 2, None), Notification::KeyUp(0x1B));
    assert_eq!(
        Notification::decode(WM_LBUTTONDOWN, 0, 0, None),
        Notification::ButtonDown(MouseButton::Left)
    );
    assert_eq!(
        Notification::decode(WM_LBUTTONUP, 0, 0, None),
        Notification::ButtonUp(MouseButton::Left)
    );
    assert_eq!(
        Notification::decode(WM_RBUTTONDOWN, 0, 0, None),
        Notification::ButtonDown(MouseButton::Right)
    );
    assert_eq!(
        Notification::decode(WM_RBUTTONUP, 0, 0, None),
        Notification::ButtonUp(MouseButton::Right)
    );
    assert_eq!(
        Notification::decode(WM_MBUTTONDOWN, 0, 0, None),
        Notification::ButtonDown(MouseButton::Middle)
    );
    assert_eq!(
        Notification::decode(WM_MBUTTONUP, 0, 0, None),
        Notification::ButtonUp(MouseButton::Middle)
    );
    assert_eq!(
        Notification::decode(WM_MOUSEWHEEL, 0xFF88_0000, 0, None),
        Notification::Wheel(-120)
    );
    assert_eq!(Notification::decode(WM_SIZE, 0, 0x0258_0320, None), Notification::Size(800, 600));
    assert_eq!(Notification::decode(0x0200, 0, 0, None), Notification::Other);
}

#[test]
fn decode_sizing_takes_size_from_rectangle() {
    let rect = Rect { left: 100, top: 50, right: 740, bottom: 530 };
    assert_eq!(
        Notification::decode(WM_SIZING, 2, 0x7777, Some(rect)),
        Notification::Sizing(640, 480)
    );
    let inverted = Rect { left: 10, top: 10, right: 5, bottom: 30 };
    assert_eq!(
        Notification::decode(WM_SIZING, 2, 0x7777, Some(inverted)),
        Notification::Sizing(0, 20)
    );
    let widest = Rect { left: i32::MIN, top: i32::MIN, right: i32::MAX, bottom: i32::MAX };
    assert_eq!(
        Notification::decode(WM_SIZING, 2, 0x7777, Some(widest)),
        Notification::Sizing(u32::MAX, u32::MAX)
    );
}

#[test]
fn decode_sizing_without_rectangle_has_no_rule() {
    assert_eq!(Notification::decode(WM_SIZING, 2, 0, None), Notification::Other);
}

#[test]
fn decode_ignores_rectangle_of_other_messages() {
    let rect = Rect { left: 0, top: 0, right: 9, bottom: 9 };
    assert_eq!(
        Notification::decode(WM_SIZE, 0, 0x0002_0001, Some(rect)),
        Notification::Size(1, 2)
    );
    assert_eq!(Notification::decode(WM_PAINT, 0, 0, Some(rect)), Notification::Paint);
}
