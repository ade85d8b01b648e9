use vstd::prelude::*;
use crate::domain::{
    has_name, is_filled, lemma_profiles_map_at, lemma_profiles_map_push, lemma_profiles_map_remove,
    lemma_profiles_map_update, AppConfig, GitUserConfig, IdentityView, Profile,
};
use crate::error::AppError;
use crate::order::views;
use crate::laws::{law_signing_disabled_without_key, law_signing_enabled_with_key};
use crate::gitconfig::{
    ConfigKey, GitGlobalConfig, apply_ops, identity_write_plan, lookup, write_plan,
};

verus! {

/// The identity that a configuration holds: each field read independently,
/// absent where its key is unset.
pub open spec fn identity_of(m: Map<ConfigKey, Seq<char>>) -> IdentityView {
    IdentityView {
        name: lookup(m, ConfigKey::UserName),
        email: lookup(m, ConfigKey::UserEmail),
        signing_key: lookup(m, ConfigKey::UserSigningKey),
    }
}

/// Reads the identity from the global configuration.
pub fn get_git_config(global: &GitGlobalConfig) -> (r: GitUserConfig)
    ensures
        r@ == identity_of(global@),
{
    GitUserConfig {
        name: global.get(ConfigKey::UserName),
        email: global.get(ConfigKey::UserEmail),
        signing_key: global.get(ConfigKey::UserSigningKey),
    }
}

/// Applies an identity to the global configuration: name and email where
/// present, and either the signing key with signing enabled, or the key
/// cleared with signing disabled.
pub fn set_git_config(global: &mut GitGlobalConfig, config: &GitUserConfig) -> (r: Result<
    (),
    AppError,
>)
    ensures
        r is Ok,
        final(global)@ == apply_ops(old(global)@, write_plan(config@)),
        is_filled(config@.signing_key) ==> lookup(final(global)@, ConfigKey::UserSigningKey)
            == config@.signing_key && lookup(final(global)@, ConfigKey::CommitGpgSign) == Some(
            "true"@,
        ),
        !is_filled(config@.signing_key) ==> lookup(final(global)@, ConfigKey::UserSigningKey)
            is None && lookup(final(global)@, ConfigKey::CommitGpgSign) == Some("false"@),
{
    let plan = identity_write_plan(config);
    let r = global.run_plan(&plan);
    proof {
        if is_filled(config@.signing_key) {
            law_signing_enabled_with_key(old(global)@, config@);
        } else {
            law_signing_disabled_without_key(old(global)@, config@);
        }
    }
    r
}

/// The names of stored profiles.
pub open spec fn name_views(s: Seq<Profile>) -> Seq<Seq<char>> {
    s.map_values(|p: Profile| p.name@)
}

/// The error that names a missing profile.
pub open spec fn is_not_found(e: AppError, name: Seq<char>) -> bool {
    e is ProfileNotFound && e->ProfileNotFound_0@ == name
}

impl AppConfig {
    /// An empty store: no profiles and no active profile.
    pub fn new() -> (r: AppConfig)
        ensures
            r.wf(),
            r.profile_map() == Map::<Seq<char>, IdentityView>::empty(),
            r.active() is None,
    {
        let r = AppConfig { profiles: Vec::new(), current_profile: None };
        assert(r.profile_map() =~= Map::<Seq<char>, IdentityView>::empty());
        r
    }

    /// The index of the profile named `name`, if one is stored.
    pub fn find_profile(&self, name: &str) -> (r: Option<usize>)
        requires
            self.wf(),
        ensures
            match r {
                Some(i) => i < self.profiles@.len() && self.profiles@[i as int].name@ == name@,
                None => !self.profile_map().contains_key(name@),
            },
    {
        let key = name.to_owned();
        let mut i: usize = 0;
        while i < self.profiles.len()
            invariant
                i <= self.profiles@.len(),
                key@ == name@,
                forall|j: int| 0 <= j < i ==> #[trigger] self.profiles@[j].name@ != name@,
            decreases self.profiles@.len() - i,
        {
            if self.profiles[i].name == key {
                return Some(i);
            }
            i = i + 1;
        }
        None
    }

    /// The identity stored under `name`, if any.
    pub fn get_profile(&self, name: &str) -> (r: Option<GitUserConfig>)
        requires
            self.wf(),
        ensures
            r is Some <==> self.profile_map().contains_key(name@),
            r is Some ==> r->Some_0@ == self.profile_map()[name@],
    {
        match self.find_profile(name) {
            Some(i) => {
                proof {
                    lemma_profiles_map_at(self.profiles@, i as int);
                }
                Some(self.profiles[i].config.duplicate())
            },
            None => None,
        }
    }

    /// The identity stored under `name`, or profile-not-found.
    pub fn lookup_profile(&self, name: &str) -> (r: Result<GitUserConfig, AppError>)
        requires
            self.wf(),
        ensures
            r is Ok <==> self.profile_map().contains_key(name@),
            r is Ok ==> r->Ok_0@ == self.profile_map()[name@],
            r is Err ==> is_not_found(r->Err_0, name@),
    {
        match self.get_profile(name) {
            Some(c) => Ok(c),
            None => Err(AppError::ProfileNotFound(name.to_owned())),
        }
    }

    /// Records `name` as the active profile once its identity has been
    /// written; after a failed write the store is left as it was and the
    /// failure is passed on.
    pub fn activate_profile(&mut self, name: &str, written: Result<(), AppError>) -> (r: Result<
        (),
        AppError,
    >)
        ensures
            r == written,
            final(self).profiles == old(self).profiles,
            written is Ok ==> final(self).active() == Some(name@),
            written is Err ==> final(self).current_profile == old(self).current_profile,
    {
        if written.is_ok() {
            self.current_profile = Some(name.to_owned());
        }
        written
    }

    /// The names of the stored profiles, in storage order.
    pub fn profile_names(&self) -> (r: Vec<String>)
        ensures
            views(r@) == name_views(self.profiles@),
    {
        let mut r: Vec<String> = Vec::new();
        let mut i: usize = 0;
        while i < self.profiles.len()
            invariant
                i <= self.profiles@.len(),
                r@.len() == i,
                forall|j: int| 0 <= j < i ==> #[trigger] r@[j]@ == self.profiles@[j].name@,
            decreases self.profiles@.len() - i,
        {
            r.push(self.profiles[i].name.clone());
            i = i + 1;
        }
        assert(views(r@) =~= name_views(self.profiles@));
        r
    }
}

/// The store to work on: what was stored, or an empty store where nothing
/// has been stored yet.
pub fn load_app_config(stored: Option<AppConfig>) -> (r: AppConfig)
    requires
        stored is Some ==> stored->Some_0.wf(),
    ensures
        r.wf(),
        stored is None ==> r.profile_map() == Map::<Seq<char>, IdentityView>::empty()
            && r.active() is None,
        stored is Some ==> r == stored->Some_0,
{
    match stored {
        Some(c) => c,
        None => AppConfig::new(),
    }
}

/// Stores `config` under `name`, replacing any profile of that name.
pub fn save_profile(store: &mut AppConfig, name: &str, config: &GitUserConfig)
    requires
        old(store).wf(),
    ensures
        final(store).wf(),
        final(store).profile_map() == old(store).profile_map().insert(name@, config@),
        final(store).active() == old(store).active(),
{
    let p = Profile { name: name.to_owned(), config: config.duplicate() };
    match store.find_profile(name) {
        Some(i) => {
            proof {
                lemma_profiles_map_update(store.profiles@, i as int, p);
            }
            store.profiles.set(i, p);
        },
        None => {
            proof {
                if has_name(store.profiles@, name@) {
                    let j = choose|j: int|
                        0 <= j < store.profiles@.len() && #[trigger] store.profiles@[j].name@
                            == name@;
                    lemma_profiles_map_at(store.profiles@, j);
                }
                lemma_profiles_map_push(store.profiles@, p);
            }
            store.profiles.push(p);
        },
    }
}

/// Switches to the profile `name`: looks it up, applies its identity to the
/// global configuration, and only then records it as active.
pub fn use_profile(store: &mut AppConfig, global: &mut GitGlobalConfig, name: &str) -> (r: Result<
    GitUserConfig,
    AppError,
>)
    requires
        old(store).wf(),
    ensures
        final(store).wf(),
        final(store).profile_map() == old(store).profile_map(),
        r is Ok <==> old(store).profile_map().contains_key(name@),
        r is Ok ==> r->Ok_0@ == old(store).profile_map()[name@] && final(global)@ == apply_ops(
            old(global)@,
            write_plan(r->Ok_0@),
        ) && final(store).active() == Some(name@),
        r is Err ==> is_not_found(r->Err_0, name@) && final(store).active() == old(store).active()
            && final(global)@ == old(global)@,
{
    let config = match store.lookup_profile(name) {
        Ok(c) => c,
        Err(e) => return Err(e),
    };
    let written = set_git_config(global, &config);
    match store.activate_profile(name, written) {
        Ok(()) => Ok(config),
        Err(e) => Err(e),
    }
}

/// Removes the profile `name`; when it was the active one the active
/// pointer is cleared.
pub fn delete_profile(store: &mut AppConfig, name: &str) -> (r: Result<(), AppError>)
    requires
        old(store).wf(),
    ensures
        final(store).wf(),
        r is Ok <==> old(store).profile_map().contains_key(name@),
        r is Ok ==> final(store).profile_map() == old(store).profile_map().remove(name@) && (if old(
            store,
        ).active() == Some(name@) {
            final(store).active() is None
        } else {
            final(store).active() == old(store).active()
        }),
        r is Err ==> is_not_found(r->Err_0, name@) && final(store).profile_map() == old(
            store,
        ).profile_map() && final(store).active() == old(store).active(),
{
    match store.find_profile(name) {
        Some(i) => {
            proof {
                lemma_profiles_map_remove(store.profiles@, i as int);
            }
            store.profiles.remove(i);
            let key = name.to_owned();
            let was_active = match &store.current_profile {
                Some(c) => c.eq(&key),
                None => false,
            };
            if was_active {
                store.current_profile = None;
            }
            Ok(())
        },
        None => Err(AppError::ProfileNotFound(name.to_owned())),
    }
}

} // verus!
