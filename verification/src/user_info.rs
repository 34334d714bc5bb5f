use vstd::prelude::*;

verus! {

/// The bits of all flags that a user option can carry.
pub const USER_OPTION_FLAGS_ALL: u64 = 1;

/// An option flag of a user.
#[derive(Debug, Clone, Copy, PartialEq, Eq, Structural)]
pub enum UserOptionFlag {
    TenantSetting,
}

/// The bit that stands for `flag` in a set of flags.
pub open spec fn spec_flag_bit(flag: UserOptionFlag) -> u64 {
    match flag {
        UserOptionFlag::TenantSetting => 1u64,
    }
}

impl UserOptionFlag {
    /// The bit that stands for this flag.
    pub fn bit(&self) -> (r: u64)
        ensures
            r == spec_flag_bit(*self),
    {
        match self {
            UserOptionFlag::TenantSetting => 1,
        }
    }

    /// The flag's name as it is displayed.
    pub fn to_string(&self) -> (r: String)
        ensures
            r@ == (match *self {
                UserOptionFlag::TenantSetting => "TENANTSETTING"@,
            }),
    {
        match self {
            UserOptionFlag::TenantSetting => String::from_str("TENANTSETTING"),
        }
    }
}


/// A set of user option flags, held as the bits of its members.
#[derive(Debug, Clone, Copy, PartialEq, Eq, Structural)]
pub struct UserOptionFlags {
    bits: u64,
}

impl View for UserOptionFlags {
    type V = Set<UserOptionFlag>;

    /// The flags that are members of the set.
    open spec fn view(&self) -> Set<UserOptionFlag> {
        Set::new(|f: UserOptionFlag| self.spec_contains(f))
    }
}

impl UserOptionFlags {
    /// No bit outside those of the known flags is set.
    #[verifier::type_invariant]
    spec fn well_formed(self) -> bool {
        self.bits & !USER_OPTION_FLAGS_ALL == 0
    }

    /// The bits of the set.
    pub closed spec fn spec_bits(self) -> u64 {
        self.bits
    }

    /// Whether `flag` is a member of the set.
    pub open spec fn spec_contains(self, flag: UserOptionFlag) -> bool {
        self.spec_bits() & spec_flag_bit(flag) != 0
    }

    /// The empty set.
    pub fn empty() -> (r: Self)
        ensures
            r.spec_bits() == 0,
            r@ == Set::<UserOptionFlag>::empty(),
    {
        assert(0u64 & !1u64 == 0) by (bit_vector);
        assert(0u64 & 1u64 == 0) by (bit_vector);
        UserOptionFlags { bits: 0 }
    }

    /// The set of all flags.
    pub fn all() -> (r: Self)
        ensures
            r.spec_bits() == USER_OPTION_FLAGS_ALL,
            r@ == Set::<UserOptionFlag>::full(),
    {
        assert(1u64 & !1u64 == 0) by (bit_vector);
        assert(1u64 & 1u64 != 0) by (bit_vector);
        UserOptionFlags { bits: USER_OPTION_FLAGS_ALL }
    }

    /// The set of the flags whose bits are set in `bits`; other bits are dropped.
    pub fn from_bits_truncate(bits: u64) -> (r: Self)
        ensures
            r.spec_bits() == bits & USER_OPTION_FLAGS_ALL,
            forall|f: UserOptionFlag| r.spec_contains(f) <==> bits & spec_flag_bit(f) != 0,
    {
        assert((bits & 1u64) & !1u64 == 0) by (bit_vector);
        assert(((bits & 1u64) & 1u64 != 0) == (bits & 1u64 != 0)) by (bit_vector);
        UserOptionFlags { bits: bits & USER_OPTION_FLAGS_ALL }
    }

    /// The bits of the set.
    pub fn bits(&self) -> (r: u64)
        ensures
            r == self.spec_bits(),
            r & !USER_OPTION_FLAGS_ALL == 0,
    {
        proof {
            use_type_invariant(self);
        }
        self.bits
    }

    /// Whether `flag` is a member of the set.
    pub fn contains(&self, flag: UserOptionFlag) -> (r: bool)
        ensures
            r == self@.contains(flag),
    {
        let b = flag.bit();
        self.bits & b != 0
    }

    /// Adds `flag` to the set; the other members stay.
    pub fn insert(&mut self, flag: UserOptionFlag)
        ensures
            final(self).spec_bits() == old(self).spec_bits() | spec_flag_bit(flag),
            final(self)@ == old(self)@.insert(flag),
    {
        proof {
            use_type_invariant(&*self);
        }
        let b = flag.bit();
        let x = self.bits;
        assert(x & !1u64 == 0 ==> (x | 1u64) & !1u64 == 0) by (bit_vector);
        assert((x | 1u64) & 1u64 != 0) by (bit_vector);
        self.bits = x | b;
    }

    /// Takes `flag` out of the set; the other members stay.
    pub fn remove(&mut self, flag: UserOptionFlag)
        ensures
            final(self).spec_bits() == old(self).spec_bits() & !spec_flag_bit(flag),
            final(self)@ == old(self)@.remove(flag),
    {
        proof {
            use_type_invariant(&*self);
        }
        let b = flag.bit();
        let x = self.bits;
        assert(x & !1u64 == 0 ==> (x & !1u64) & !1u64 == 0) by (bit_vector);
        assert((x & !1u64) & 1u64 == 0) by (bit_vector);
        self.bits = x & !b;
    }
}


/// The options of a user: its option flags and its default role.
#[derive(Debug, Clone, PartialEq, Eq)]
pub struct UserOption {
    flags: UserOptionFlags,
    default_role: Option<String>,
}

impl UserOption {
    /// The option flags.
    pub closed spec fn spec_flags(&self) -> UserOptionFlags {
        self.flags
    }

    /// The default role, by its characters.
    pub closed spec fn spec_default_role(&self) -> Option<Seq<char>> {
        match self.default_role {
            Some(r) => Some(r@),
            None => None,
        }
    }

    /// Options with the given flags and no default role.
    pub fn new(flags: UserOptionFlags) -> (r: Self)
        ensures
            r.spec_flags() == flags,
            r.spec_default_role() == None::<Seq<char>>,
    {
        UserOption { flags, default_role: None }
    }

    /// Options with no flag and no default role.
    pub fn empty() -> (r: Self)
        ensures
            r.spec_flags()@ == Set::<UserOptionFlag>::empty(),
            r.spec_default_role() == None::<Seq<char>>,
    {
        UserOption::default()
    }

    /// These options with their flags replaced by `flags`.
    pub fn with_flags(self, flags: UserOptionFlags) -> (r: Self)
        ensures
            r.spec_flags() == flags,
            r.spec_default_role() == self.spec_default_role(),
    {
        let mut s = self;
        s.flags = flags;
        s
    }

    /// These options with their default role replaced by `default_role`.
    pub fn with_default_role(self, default_role: Option<String>) -> (r: Self)
        ensures
            r.spec_flags() == self.spec_flags(),
            r.spec_default_role() == (match default_role {
                Some(d) => Some(d@),
                None => None::<Seq<char>>,
            }),
    {
        let mut s = self;
        s.default_role = default_role;
        s
    }

    /// These options with `flag` added to their flags.
    pub fn with_set_flag(self, flag: UserOptionFlag) -> (r: Self)
        ensures
            r.spec_flags()@ == self.spec_flags()@.insert(flag),
            r.spec_default_role() == self.spec_default_role(),
    {
        let mut s = self;
        s.flags.insert(flag);
        s
    }

    /// The option flags.
    pub fn flags(&self) -> (r: &UserOptionFlags)
        ensures
            *r == self.spec_flags(),
    {
        &self.flags
    }

    /// The default role, if there is one.
    pub fn default_role(&self) -> (r: Option<&String>)
        ensures
            match r {
                Some(d) => self.spec_default_role() == Some(d@),
                None => self.spec_default_role() == None::<Seq<char>>,
            },
    {
        self.default_role.as_ref()
    }

    /// Replaces the default role.
    pub fn set_default_role(&mut self, default_role: Option<String>)
        ensures
            final(self).spec_flags() == old(self).spec_flags(),
            final(self).spec_default_role() == (match default_role {
                Some(d) => Some(d@),
                None => None::<Seq<char>>,
            }),
    {
        self.default_role = default_role;
    }

    /// Sets every flag.
    pub fn set_all_flag(&mut self)
        ensures
            final(self).spec_flags()@ == Set::<UserOptionFlag>::full(),
            final(self).spec_default_role() == old(self).spec_default_role(),
    {
        self.flags = UserOptionFlags::all();
    }

    /// Sets `flag`; the other flags stay.
    pub fn set_option_flag(&mut self, flag: UserOptionFlag)
        ensures
            final(self).spec_flags()@ == old(self).spec_flags()@.insert(flag),
            final(self).spec_default_role() == old(self).spec_default_role(),
    {
        self.flags.insert(flag);
    }

    /// Sets `flag` when `on` holds and clears it otherwise; the other flags stay.
    pub fn switch_option_flag(&mut self, flag: UserOptionFlag, on: bool)
        ensures
            final(self).spec_flags()@ == (if on {
                old(self).spec_flags()@.insert(flag)
            } else {
                old(self).spec_flags()@.remove(flag)
            }),
            final(self).spec_default_role() == old(self).spec_default_role(),
    {
        if on {
            self.flags.insert(flag);
        } else {
            self.flags.remove(flag);
        }
    }

    /// Clears `flag`; the other flags stay.
    pub fn unset_option_flag(&mut self, flag: UserOptionFlag)
        ensures
            final(self).spec_flags()@ == old(self).spec_flags()@.remove(flag),
            final(self).spec_default_role() == old(self).spec_default_role(),
    {
        self.flags.remove(flag);
    }

    /// Whether `flag` is set.
    pub fn has_option_flag(&self, flag: UserOptionFlag) -> (r: bool)
        ensures
            r == self.spec_flags()@.contains(flag),
    {
        self.flags.contains(flag)
    }
}

impl Default for UserOption {
    fn default() -> (r: Self)
        ensures
            r.spec_flags()@ == Set::<UserOptionFlag>::empty(),
            r.spec_default_role() == None::<Seq<char>>,
    {
        UserOption { flags: UserOptionFlags::empty(), default_role: None }
    }
}


/// How a stored password is hashed.
#[derive(Debug, Clone, Copy, PartialEq, Eq, Structural)]
pub enum PasswordHashMethod {
    DoubleSha1,
    Sha256,
}

/// How a user authenticates.
#[derive(Debug, Clone, PartialEq, Eq)]
pub enum AuthInfo {
    NoAuth,
    Password { hash_value: Vec<u8>, hash_method: PasswordHashMethod },
    JWT,
}

impl Default for AuthInfo {
    fn default() -> (r: Self)
        ensures
            r == AuthInfo::NoAuth,
    {
        AuthInfo::NoAuth
    }
}

/// The roles granted to a user.
#[derive(Debug, Clone, PartialEq, Eq)]
pub struct UserGrantSet {
    pub roles: Vec<String>,
}

impl Default for UserGrantSet {
    fn default() -> (r: Self)
        ensures
            r.roles@ == Seq::<String>::empty(),
    {
        UserGrantSet { roles: Vec::new() }
    }
}

/// The resource limits of a user; 0 stands for no limit.
#[derive(Debug, Clone, Copy, PartialEq, Eq, Structural)]
pub struct UserQuota {
    pub max_cpu: u64,
    pub max_memory_in_bytes: u64,
    pub max_storage_in_bytes: u64,
}

impl UserQuota {
    /// The quota that limits nothing.
    pub fn no_limit() -> (r: Self)
        ensures
            r == (UserQuota { max_cpu: 0, max_memory_in_bytes: 0, max_storage_in_bytes: 0 }),
    {
        UserQuota { max_cpu: 0, max_memory_in_bytes: 0, max_storage_in_bytes: 0 }
    }
}

impl Default for UserQuota {
    fn default() -> (r: Self)
        ensures
            r == (UserQuota { max_cpu: 0, max_memory_in_bytes: 0, max_storage_in_bytes: 0 }),
    {
        UserQuota::no_limit()
    }
}

/// A user as named by its user name and host name.
#[derive(Debug, Clone, PartialEq, Eq)]
pub struct UserIdentity {
    pub username: String,
    pub hostname: String,
}

/// A user: its identity, how it authenticates, its grants, quota and options.
#[derive(Debug, Clone, PartialEq, Eq)]
pub struct UserInfo {
    pub name: String,
    pub hostname: String,
    pub auth_info: AuthInfo,
    pub grants: UserGrantSet,
    pub quota: UserQuota,
    pub option: UserOption,
}

impl UserInfo {
    /// A user with no grants, no quota limit and default options.
    pub fn new(name: &str, hostname: &str, auth_info: AuthInfo) -> (r: Self)
        ensures
            r.name@ == name@,
            r.hostname@ == hostname@,
            r.auth_info == auth_info,
            r.grants.roles@ == Seq::<String>::empty(),
            r.quota == (UserQuota { max_cpu: 0, max_memory_in_bytes: 0, max_storage_in_bytes: 0 }),
            r.option.spec_flags()@ == Set::<UserOptionFlag>::empty(),
            r.option.spec_default_role() == None::<Seq<char>>,
    {
        let grants = UserGrantSet::default();
        let quota = UserQuota::no_limit();
        let option = UserOption::default();
        UserInfo {
            name: String::from_str(name),
            hostname: String::from_str(hostname),
            auth_info,
            grants,
            quota,
            option,
        }
    }

    /// A user that authenticates with nothing.
    pub fn new_no_auth(name: &str, hostname: &str) -> (r: Self)
        ensures
            r.name@ == name@,
            r.hostname@ == hostname@,
            r.auth_info == AuthInfo::NoAuth,
            r.grants.roles@ == Seq::<String>::empty(),
            r.quota == (UserQuota { max_cpu: 0, max_memory_in_bytes: 0, max_storage_in_bytes: 0 }),
            r.option.spec_flags()@ == Set::<UserOptionFlag>::empty(),
            r.option.spec_default_role() == None::<Seq<char>>,
    {
        UserInfo::new(name, hostname, AuthInfo::NoAuth)
    }

    /// The user's identity.
    pub fn identity(&self) -> (r: UserIdentity)
        ensures
            r.username@ == self.name@,
            r.hostname@ == self.hostname@,
    {
        UserIdentity { username: self.name.clone(), hostname: self.hostname.clone() }
    }

    /// Whether the user's options carry `flag`.
    pub fn has_option_flag(&self, flag: UserOptionFlag) -> (r: bool)
        ensures
            r == self.option.spec_flags()@.contains(flag),
    {
        self.option.has_option_flag(flag)
    }

    /// Replaces the authentication by `auth` and the options by `option`,
    /// each only where it is given.
    pub fn update_auth_option(&mut self, auth: Option<AuthInfo>, option: Option<UserOption>)
        ensures
            final(self).auth_info == (match auth {
                Some(a) => a,
                None => old(self).auth_info,
            }),
            final(self).option == (match option {
                Some(o) => o,
                None => old(self).option,
            }),
            final(self).name == old(self).name,
            final(self).hostname == old(self).hostname,
            final(self).grants == old(self).grants,
            final(self).quota == old(self).quota,
    {
        if let Some(auth_info) = auth {
            self.auth_info = auth_info;
        }
        if let Some(user_option) = option {
            self.option = user_option;
        }
    }
}

impl Default for UserInfo {
    fn default() -> (r: Self)
        ensures
            r.name@ == Seq::<char>::empty(),
            r.hostname@ == Seq::<char>::empty(),
            r.auth_info == AuthInfo::NoAuth,
            r.grants.roles@ == Seq::<String>::empty(),
            r.quota == (UserQuota { max_cpu: 0, max_memory_in_bytes: 0, max_storage_in_bytes: 0 }),
            r.option.spec_flags()@ == Set::<UserOptionFlag>::empty(),
            r.option.spec_default_role() == None::<Seq<char>>,
    {
        UserInfo {
            name: String::new(),
            hostname: String::new(),
            auth_info: AuthInfo::default(),
            grants: UserGrantSet::default(),
            quota: UserQuota::default(),
            option: UserOption::default(),
        }
    }
}

/// Switching a flag on or off leaves it set exactly when it was switched on,
/// and leaves every other flag as it was.
pub proof fn law_switch_option_flag(flags: Set<UserOptionFlag>, flag: UserOptionFlag, on: bool, other: UserOptionFlag)
    ensures
        (if on { flags.insert(flag) } else { flags.remove(flag) }).contains(flag) == on,
        other != flag ==> (if on { flags.insert(flag) } else { flags.remove(flag) }).contains(other)
            == flags.contains(other),
{
}

/// Setting a flag that was not set and then clearing it gives back the
/// flags there were.
pub proof fn law_set_then_unset_restores(flags: Set<UserOptionFlag>, flag: UserOptionFlag)
    requires
        !flags.contains(flag),
    ensures
        flags.insert(flag).remove(flag) == flags,
{
    assert(flags.insert(flag).remove(flag) =~= flags);
}

} // verus!
