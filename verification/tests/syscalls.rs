use ruxfuse::prctl::{name_copy_len, sys_arch_prctl, sys_prctl, ArchPrctlAction, PrctlAction};

#[test]
fn arch_prctl_sets_fs_or_fails() {
    assert_eq!(sys_arch_prctl(0x1002, 0xdead), (ArchPrctlAction::SetThreadPointer(0xdead), 0));
    assert_eq!(sys_arch_prctl(0x1001, 1), (ArchPrctlAction::Nothing, -22));
}

#[test]
fn prctl_options() {
    assert_eq!(sys_prctl(3), (PrctlAction::Nothing, 1));
    assert_eq!(sys_prctl(15), (PrctlAction::ReadName, 0));
    assert_eq!(sys_prctl(16), (PrctlAction::WriteName, 0));
    assert_eq!(sys_prctl(4), (PrctlAction::Nothing, -22));
    assert_eq!(name_copy_len(5), 5);
    assert_eq!(name_copy_len(30), 16);
}
