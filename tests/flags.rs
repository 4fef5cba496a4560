use browsers::{LSLaunchFlags, LSRolesMask};

#[test]
fn defaults_or_async_commutes() {
    let a = LSLaunchFlags::defaults() | LSLaunchFlags::launch_async();
    let b = LSLaunchFlags::launch_async() | LSLaunchFlags::defaults();
    assert_eq!(a, b);
    assert_eq!(a.bits(), 0x00010001);
}

#[test]
fn launch_flag_values() {
    assert_eq!(LSLaunchFlags::defaults().bits(), 0x00000001);
    assert_eq!(LSLaunchFlags::launch_and_prints().bits(), 0x00000002);
    assert_eq!(LSLaunchFlags::launch_and_display_errors().bits(), 0x00000040);
    assert_eq!(LSLaunchFlags::launch_dont_add_to_recents().bits(), 0x00000100);
    assert_eq!(LSLaunchFlags::launch_dont_switch().bits(), 0x00000200);
    assert_eq!(LSLaunchFlags::launch_async().bits(), 0x00010000);
    assert_eq!(LSLaunchFlags::launch_new_instance().bits(), 0x00080000);
    assert_eq!(LSLaunchFlags::launch_and_hide().bits(), 0x00100000);
    assert_eq!(LSLaunchFlags::launch_and_hide_others().bits(), 0x00200000);
}

#[test]
fn launch_flags_and_xor() {
    let both = LSLaunchFlags(0b1100) & LSLaunchFlags(0b1010);
    assert_eq!(both, LSLaunchFlags(0b1000));
    let either = LSLaunchFlags(0b1100) ^ LSLaunchFlags(0b1010);
    assert_eq!(either, LSLaunchFlags(0b0110));
    let any = LSLaunchFlags(0b1100) | LSLaunchFlags(0b1010);
    assert_eq!(any, LSLaunchFlags(0b1110));
}

#[test]
fn launch_flags_grouping() {
    let (a, b, c) = (LSLaunchFlags(0x11), LSLaunchFlags(0x0f0), LSLaunchFlags(0x101));
    assert_eq!((a | b) | c, a | (b | c));
    assert_eq!((a & b) & c, a & (b & c));
    assert_eq!(a & b, b & a);
}

#[test]
fn launch_flags_into_u32() {
    let raw: u32 = (LSLaunchFlags::launch_async() | LSLaunchFlags::launch_and_hide()).into();
    assert_eq!(raw, 0x00110000);
}

#[test]
fn roles_mask_values() {
    assert_eq!(LSRolesMask::none().bits(), 0x1);
    assert_eq!(LSRolesMask::viewer().bits(), 0x2);
    assert_eq!(LSRolesMask::editor().bits(), 0x4);
    assert_eq!(LSRolesMask::shell().bits(), 0x8);
    assert_eq!(LSRolesMask::all().bits(), u32::MAX);
}

#[test]
fn roles_mask_combination() {
    let ve = LSRolesMask::viewer() | LSRolesMask::editor();
    assert_eq!(ve, LSRolesMask::editor() | LSRolesMask::viewer());
    assert_eq!(ve.bits(), 0x6);
    assert_eq!(LSRolesMask::all() & LSRolesMask::shell(), LSRolesMask::shell());
    assert_eq!((LSRolesMask::all() ^ LSRolesMask::none()).bits(), u32::MAX - 1);
    let raw: u32 = ve.into();
    assert_eq!(raw, 6);
}

#[test]
fn masks_print_as_decimal() {
    assert_eq!((LSLaunchFlags::defaults() | LSLaunchFlags::launch_async()).to_string(), "65537");
    assert_eq!(LSLaunchFlags(0).to_string(), "0");
    assert_eq!(LSRolesMask::all().to_string(), "4294967295");
    assert_eq!(LSRolesMask::editor().to_string(), "4");
}
