use databend_query::user_info::{
    AuthInfo, PasswordHashMethod, UserInfo, UserOption, UserOptionFlag, UserOptionFlags, UserQuota,
};

#[test]
fn test_user_update_auth_option() {
    let mut u = UserInfo::new("a", "b", AuthInfo::NoAuth);

    // None does not take effect
    {
        let mut u2 = u.clone();
        u2.update_auth_option(None, None);
        assert_eq!(u2, u);
    }

    // Some updates the corresponding fields
    {
        u.update_auth_option(Some(AuthInfo::JWT), Some(UserOption::new(UserOptionFlags::all())));
        assert_eq!(AuthInfo::JWT, u.auth_info);
        assert_eq!(UserOptionFlags::all(), *u.option.flags());
    }
}

#[test]
fn new_user_has_no_grants_no_limit_and_no_flags() {
    let u = UserInfo::new_no_auth("root", "%");
    assert_eq!(u.name, "root");
    assert_eq!(u.hostname, "%");
    assert_eq!(u.auth_info, AuthInfo::NoAuth);
    assert!(u.grants.roles.is_empty());
    assert_eq!(u.quota, UserQuota { max_cpu: 0, max_memory_in_bytes: 0, max_storage_in_bytes: 0 });
    assert!(!u.has_option_flag(UserOptionFlag::TenantSetting));
    assert_eq!(u.option.default_role(), None);
    assert_eq!(u, UserInfo { name: "root".to_string(), hostname: "%".to_string(), ..UserInfo::default() });
}

#[test]
fn identity_carries_name_and_host() {
    let u = UserInfo::new(
        "alice",
        "localhost",
        AuthInfo::Password { hash_value: vec![1, 2], hash_method: PasswordHashMethod::Sha256 },
    );
    let id = u.identity();
    assert_eq!(id.username, "alice");
    assert_eq!(id.hostname, "localhost");
}

#[test]
fn update_only_option_keeps_auth() {
    let mut u = UserInfo::new("a", "b", AuthInfo::JWT);
    let option = UserOption::empty().with_set_flag(UserOptionFlag::TenantSetting);
    u.update_auth_option(None, Some(option));
    assert_eq!(u.auth_info, AuthInfo::JWT);
    assert!(u.has_option_flag(UserOptionFlag::TenantSetting));
}

#[test]
fn option_flags_set_unset_switch() {
    let mut o = UserOption::empty();
    assert!(!o.has_option_flag(UserOptionFlag::TenantSetting));
    o.set_option_flag(UserOptionFlag::TenantSetting);
    assert!(o.has_option_flag(UserOptionFlag::TenantSetting));
    o.unset_option_flag(UserOptionFlag::TenantSetting);
    assert!(!o.has_option_flag(UserOptionFlag::TenantSetting));
    o.switch_option_flag(UserOptionFlag::TenantSetting, true);
    assert!(o.has_option_flag(UserOptionFlag::TenantSetting));
    o.switch_option_flag(UserOptionFlag::TenantSetting, false);
    assert!(!o.has_option_flag(UserOptionFlag::TenantSetting));
    o.set_all_flag();
    assert_eq!(*o.flags(), UserOptionFlags::all());
    assert_eq!(o.flags().bits(), 1);
}

#[test]
fn option_default_role() {
    let mut o = UserOption::default().with_default_role(Some("admin".to_string()));
    assert_eq!(o.default_role(), Some(&"admin".to_string()));
    o.set_default_role(None);
    assert_eq!(o.default_role(), None);
    let o = o.with_flags(UserOptionFlags::all());
    assert!(o.has_option_flag(UserOptionFlag::TenantSetting));
    assert_eq!(o.default_role(), None);
}

#[test]
fn flags_from_bits_truncate_drops_unknown_bits() {
    let f = UserOptionFlags::from_bits_truncate(0xff);
    assert_eq!(f.bits(), 1);
    assert!(f.contains(UserOptionFlag::TenantSetting));
    let g = UserOptionFlags::from_bits_truncate(2);
    assert_eq!(g, UserOptionFlags::empty());
    let mut h = UserOptionFlags::empty();
    h.insert(UserOptionFlag::TenantSetting);
    assert_eq!(h, UserOptionFlags::all());
    h.remove(UserOptionFlag::TenantSetting);
    assert_eq!(h.bits(), 0);
}

#[test]
fn flag_display_name() {
    assert_eq!(UserOptionFlag::TenantSetting.to_string(), "TENANTSETTING");
    assert_eq!(UserOptionFlag::TenantSetting.bit(), 1);
}
