use vstd::prelude::*;
use crate::cli::ConfigArgs;
use crate::config::{name_views, save_profile};
use crate::order::{is_sorted, sorted_names, views};
use crate::domain::{opt_view, AppConfig, GitUserConfig, IdentityView};
use crate::error::AppError;
use crate::gitconfig::{
    ConfigKey, ConfigOp, GitGlobalConfig, OpView, apply_ops, field_plan, ops_view, push_field_op,
    push_signing_ops, signing_plan,
};

verus! {

/// The writes of a direct set: name and email where supplied, and the
/// signing pair only where a signing key is supplied (an empty key clears
/// it and disables signing). Nothing else is touched.
pub open spec fn set_plan_of(
    name: Option<Seq<char>>,
    email: Option<Seq<char>>,
    key: Option<Seq<char>>,
) -> Seq<OpView> {
    field_plan(ConfigKey::UserName, name) + field_plan(ConfigKey::UserEmail, email) + (
    if key is Some {
        signing_plan(key)
    } else {
        Seq::empty()
    })
}

/// No field of a direct set is supplied.
pub open spec fn nothing_supplied(args: ConfigArgs) -> bool {
    args.name is None && args.email is None && args.signing_key is None
}

/// Plans a direct set. Fails when no field is supplied.
pub fn set_plan(args: &ConfigArgs) -> (r: Result<Vec<ConfigOp>, AppError>)
    ensures
        r is Err <==> nothing_supplied(*args),
        r is Err ==> r->Err_0 is NothingToSet,
        r is Ok ==> ops_view(r->Ok_0@) == set_plan_of(
            opt_view(args.name),
            opt_view(args.email),
            opt_view(args.signing_key),
        ),
{
    if args.name.is_none() && args.email.is_none() && args.signing_key.is_none() {
        return Err(AppError::NothingToSet);
    }
    let mut plan: Vec<ConfigOp> = Vec::new();
    assert(ops_view(plan@) =~= Seq::<OpView>::empty());
    push_field_op(&mut plan, ConfigKey::UserName, &args.name);
    push_field_op(&mut plan, ConfigKey::UserEmail, &args.email);
    if args.signing_key.is_some() {
        push_signing_ops(&mut plan, &args.signing_key);
    }
    assert(ops_view(plan@) =~= set_plan_of(
        opt_view(args.name),
        opt_view(args.email),
        opt_view(args.signing_key),
    ));
    Ok(plan)
}

/// A direct set on the global configuration: fails before any write when
/// no field is supplied, and otherwise writes only what was supplied.
pub fn handle_set(global: &mut GitGlobalConfig, args: &ConfigArgs) -> (r: Result<(), AppError>)
    ensures
        r is Err <==> nothing_supplied(*args),
        r is Err ==> r->Err_0 is NothingToSet && final(global)@ == old(global)@,
        r is Ok ==> final(global)@ == apply_ops(
            old(global)@,
            set_plan_of(opt_view(args.name), opt_view(args.email), opt_view(args.signing_key)),
        ),
{
    let plan = match set_plan(args) {
        Ok(p) => p,
        Err(e) => return Err(e),
    };
    global.run_plan(&plan)
}

/// Saves the live identity as the profile `name`; an identity without a
/// non-empty name and email is refused and the store left as it was.
pub fn save_live_identity(store: &mut AppConfig, name: &str, live: &GitUserConfig) -> (r: Result<
    (),
    AppError,
>)
    requires
        old(store).wf(),
    ensures
        final(store).wf(),
        r is Ok <==> live.spec_is_complete(),
        r is Ok ==> final(store).profile_map() == old(store).profile_map().insert(name@, live@)
            && final(store).active() == old(store).active(),
        r is Err ==> r->Err_0 is IncompleteIdentity && *final(store) == *old(store),
{
    if !live.is_complete() {
        return Err(AppError::IncompleteIdentity);
    }
    save_profile(store, name, live);
    Ok(())
}

/// The identity that setup writes from the answers given: name and email as
/// entered, and the signing key unless it was left empty.
pub fn setup_identity(name: String, email: String, signing_key: String) -> (r: GitUserConfig)
    ensures
        r@ == (IdentityView {
            name: Some(name@),
            email: Some(email@),
            signing_key: if signing_key@.len() == 0 {
                None
            } else {
                Some(signing_key@)
            },
        }),
{
    let key = if signing_key.as_str().is_empty() {
        None
    } else {
        Some(signing_key)
    };
    GitUserConfig { name: Some(name), email: Some(email), signing_key: key }
}

/// Setup prompts for its values, so it cannot run when both structured
/// output and no interaction are asked for.
pub fn check_setup_mode(json: bool, non_interactive: bool) -> (r: Result<(), AppError>)
    ensures
        r is Err <==> json && non_interactive,
        r is Err ==> r->Err_0 is InvalidUsage,
{
    if json && non_interactive {
        Err(
            AppError::InvalidUsage(
                "Cannot run interactive setup with --non-interactive and --json flags. Provide values via the 'set' command.".to_owned(),
            ),
        )
    } else {
        Ok(())
    }
}

/// Setup asks before replacing an identity that is already partly set.
pub fn should_confirm_reconfigure(live: &GitUserConfig) -> (r: bool)
    ensures
        r == (live@.name is Some || live@.email is Some),
{
    live.name.is_some() || live.email.is_some()
}

/// The profile to switch to: the one named, or none yet where the user is
/// to choose; structured output allows no choosing.
pub fn use_target(name: Option<String>, json: bool) -> (r: Result<Option<String>, AppError>)
    ensures
        r is Err <==> name is None && json,
        r is Err ==> r->Err_0 is InvalidUsage,
        r is Ok ==> opt_view(r->Ok_0) == opt_view(name),
{
    match name {
        Some(n) => Ok(Some(n)),
        None => {
            if json {
                Err(
                    AppError::InvalidUsage(
                        "A profile name is required when using --json output.".to_owned(),
                    ),
                )
            } else {
                Ok(None)
            }
        },
    }
}

/// The characters that `char::is_whitespace` accepts: Unicode's
/// White_Space property.
pub open spec fn is_white(c: char) -> bool {
    let n = c as u32;
    (9 <= n <= 13) || n == 32 || n == 0x85 || n == 0xA0 || n == 0x1680 || (0x2000 <= n <= 0x200A)
        || n == 0x2028 || n == 0x2029 || n == 0x202F || n == 0x205F || n == 0x3000
}

/// A profile name made only of white space (or empty) is rejected.
pub fn profile_name_is_blank(name: &str) -> (r: bool)
    ensures
        r == forall|i: int| 0 <= i < name@.len() ==> is_white(#[trigger] name@[i]),
{
    let n = name.unicode_len();
    let mut i: usize = 0;
    while i < n
        invariant
            n == name@.len(),
            i <= n,
            forall|j: int| 0 <= j < i ==> is_white(#[trigger] name@[j]),
        decreases n - i,
    {
        let c = name.get_char(i);
        let v = c as u32;
        let white = (9 <= v && v <= 13) || v == 32 || v == 0x85 || v == 0xA0 || v == 0x1680 || (
        0x2000 <= v && v <= 0x200A) || v == 0x2028 || v == 0x2029 || v == 0x202F || v == 0x205F
            || v == 0x3000;
        if !white {
            return false;
        }
        i = i + 1;
    }
    true
}

/// The names to choose a profile from, sorted; fails when none is stored.
pub fn profile_choices(store: &AppConfig) -> (r: Result<Vec<String>, AppError>)
    ensures
        r is Err <==> store.profiles@.len() == 0,
        r is Err ==> r->Err_0 is ProfileNotFound,
        r is Ok ==> views(r->Ok_0@).to_multiset() == name_views(store.profiles@).to_multiset()
            && is_sorted(views(r->Ok_0@)),
{
    if store.profiles.len() == 0 {
        return Err(AppError::ProfileNotFound("No profiles exist to choose from.".to_owned()));
    }
    Ok(sorted_names(&store.profile_names()))
}

} // verus!
