use vstd::prelude::*;

verus! {

/// The view of an optional string: the characters it holds, if any.
pub open spec fn opt_view(o: Option<String>) -> Option<Seq<char>> {
    match o {
        Some(s) => Some(s@),
        None => None,
    }
}

/// A value counts as set when it is present and not empty.
pub open spec fn is_filled(v: Option<Seq<char>>) -> bool {
    v is Some && v->Some_0.len() > 0
}

/// An identity as mathematical values: each field absent or a string.
pub struct IdentityView {
    pub name: Option<Seq<char>>,
    pub email: Option<Seq<char>>,
    pub signing_key: Option<Seq<char>>,
}

/// One author identity of the version-control tool.
#[derive(Debug, Clone, Default, PartialEq, Eq)]
pub struct GitUserConfig {
    pub name: Option<String>,
    pub email: Option<String>,
    pub signing_key: Option<String>,
}

impl View for GitUserConfig {
    type V = IdentityView;

    open spec fn view(&self) -> IdentityView {
        IdentityView {
            name: opt_view(self.name),
            email: opt_view(self.email),
            signing_key: opt_view(self.signing_key),
        }
    }
}

/// Copies an optional string.
pub fn copy_opt(o: &Option<String>) -> (r: Option<String>)
    ensures
        opt_view(r) == opt_view(*o),
{
    match o {
        Some(s) => Some(s.clone()),
        None => None,
    }
}

impl GitUserConfig {
    /// An identity with no field configured.
    pub fn empty() -> (r: GitUserConfig)
        ensures
            r@.name is None,
            r@.email is None,
            r@.signing_key is None,
    {
        GitUserConfig { name: None, email: None, signing_key: None }
    }

    /// A copy with the same fields.
    pub fn duplicate(&self) -> (r: GitUserConfig)
        ensures
            r@ == self@,
    {
        GitUserConfig {
            name: copy_opt(&self.name),
            email: copy_opt(&self.email),
            signing_key: copy_opt(&self.signing_key),
        }
    }

    /// Both name and email are present and non-empty.
    pub open spec fn spec_is_complete(&self) -> bool {
        is_filled(self@.name) && is_filled(self@.email)
    }

    pub fn is_complete(&self) -> (r: bool)
        ensures
            r == self.spec_is_complete(),
    {
        let name_ok = match &self.name {
            Some(n) => !n.as_str().is_empty(),
            None => false,
        };
        let email_ok = match &self.email {
            Some(e) => !e.as_str().is_empty(),
            None => false,
        };
        name_ok && email_ok
    }
}

/// A named identity kept in the profile store.
#[derive(Debug, Clone, PartialEq, Eq)]
pub struct Profile {
    pub name: String,
    pub config: GitUserConfig,
}

/// The profile store: named identities, and the name of the active one.
#[derive(Debug, Clone, Default)]
pub struct AppConfig {
    pub profiles: Vec<Profile>,
    pub current_profile: Option<String>,
}

/// No two stored profiles share a name.
pub open spec fn names_unique(s: Seq<Profile>) -> bool {
    forall|i: int, j: int|
        0 <= i < s.len() && 0 <= j < s.len() && i != j ==> #[trigger] s[i].name@ != #[trigger] s[j].name@
}

/// Some stored profile has the name `k`.
pub open spec fn has_name(s: Seq<Profile>, k: Seq<char>) -> bool {
    exists|i: int| 0 <= i < s.len() && #[trigger] s[i].name@ == k
}

/// The stored profiles as a map from name to identity.
pub open spec fn profiles_map(s: Seq<Profile>) -> Map<Seq<char>, IdentityView> {
    Map::new(
        |k: Seq<char>| has_name(s, k),
        |k: Seq<char>| s[choose|i: int| 0 <= i < s.len() && #[trigger] s[i].name@ == k].config@,
    )
}

impl AppConfig {
    /// Well-formed: profile names are unique.
    pub open spec fn wf(&self) -> bool {
        names_unique(self.profiles@)
    }

    /// The stored profiles, by name.
    pub open spec fn profile_map(&self) -> Map<Seq<char>, IdentityView> {
        profiles_map(self.profiles@)
    }

    /// The name of the active profile, if any.
    pub open spec fn active(&self) -> Option<Seq<char>> {
        opt_view(self.current_profile)
    }
}

/// The profile at index `i` is what the map gives for its name.
pub proof fn lemma_profiles_map_at(s: Seq<Profile>, i: int)
    requires
        names_unique(s),
        0 <= i < s.len(),
    ensures
        profiles_map(s).contains_key(s[i].name@),
        profiles_map(s)[s[i].name@] == s[i].config@,
{
    let k = s[i].name@;
    assert(has_name(s, k));
    let j = choose|j: int| 0 <= j < s.len() && #[trigger] s[j].name@ == k;
    assert(j == i);
}

/// Replacing the profile at `i` by one of the same name updates that entry.
pub proof fn lemma_profiles_map_update(s: Seq<Profile>, i: int, p: Profile)
    requires
        names_unique(s),
        0 <= i < s.len(),
        p.name@ == s[i].name@,
    ensures
        names_unique(s.update(i, p)),
        profiles_map(s.update(i, p)) == profiles_map(s).insert(p.name@, p.config@),
{
    let t = s.update(i, p);
    assert(names_unique(t)) by {
        assert forall|a: int, b: int|
            0 <= a < t.len() && 0 <= b < t.len() && a != b implies #[trigger] t[a].name@
            != #[trigger] t[b].name@ by {
            assert(s[a].name@ != s[b].name@);
        }
    }
    let m = profiles_map(s).insert(p.name@, p.config@);
    assert forall|k: Seq<char>| #[trigger] profiles_map(t).contains_key(k) == m.contains_key(k) by {
        if has_name(s, k) {
            let j = choose|j: int| 0 <= j < s.len() && #[trigger] s[j].name@ == k;
            assert(t[j].name@ == k);
        }
        if has_name(t, k) {
            let j = choose|j: int| 0 <= j < t.len() && #[trigger] t[j].name@ == k;
            if j != i {
                assert(s[j].name@ == k);
            }
        }
    }
    assert forall|k: Seq<char>| #[trigger] m.contains_key(k) implies profiles_map(t)[k] == m[k] by {
        if k == p.name@ {
            lemma_profiles_map_at(t, i);
        } else {
            let j = choose|j: int| 0 <= j < s.len() && #[trigger] s[j].name@ == k;
            lemma_profiles_map_at(s, j);
            assert(t[j] == s[j]);
            lemma_profiles_map_at(t, j);
        }
    }
    assert(profiles_map(t) =~= m);
}

/// Appending a profile under a new name adds that entry.
pub proof fn lemma_profiles_map_push(s: Seq<Profile>, p: Profile)
    requires
        names_unique(s),
        !has_name(s, p.name@),
    ensures
        names_unique(s.push(p)),
        profiles_map(s.push(p)) == profiles_map(s).insert(p.name@, p.config@),
{
    let t = s.push(p);
    let n = s.len() as int;
    assert(names_unique(t)) by {
        assert forall|a: int, b: int|
            0 <= a < t.len() && 0 <= b < t.len() && a != b implies #[trigger] t[a].name@
            != #[trigger] t[b].name@ by {
            if a < n && b < n {
                assert(s[a].name@ != s[b].name@);
            } else if a < n {
                assert(s[a].name@ == t[a].name@);
            } else {
                assert(s[b].name@ == t[b].name@);
            }
        }
    }
    let m = profiles_map(s).insert(p.name@, p.config@);
    assert forall|k: Seq<char>| #[trigger] profiles_map(t).contains_key(k) == m.contains_key(k) by {
        if has_name(s, k) {
            let j = choose|j: int| 0 <= j < s.len() && #[trigger] s[j].name@ == k;
            assert(t[j].name@ == k);
        }
        if k == p.name@ {
            assert(t[n].name@ == k);
        }
        if has_name(t, k) {
            let j = choose|j: int| 0 <= j < t.len() && #[trigger] t[j].name@ == k;
            if j < n {
                assert(s[j].name@ == k);
            }
        }
    }
    assert forall|k: Seq<char>| #[trigger] m.contains_key(k) implies profiles_map(t)[k] == m[k] by {
        if k == p.name@ {
            lemma_profiles_map_at(t, n);
        } else {
            let j = choose|j: int| 0 <= j < s.len() && #[trigger] s[j].name@ == k;
            lemma_profiles_map_at(s, j);
            assert(t[j] == s[j]);
            lemma_profiles_map_at(t, j);
        }
    }
    assert(profiles_map(t) =~= m);
}

/// Removing the profile at `i` removes that entry.
pub proof fn lemma_profiles_map_remove(s: Seq<Profile>, i: int)
    requires
        names_unique(s),
        0 <= i < s.len(),
    ensures
        names_unique(s.remove(i)),
        profiles_map(s.remove(i)) == profiles_map(s).remove(s[i].name@),
{
    let t = s.remove(i);
    let key = s[i].name@;
    assert forall|a: int| 0 <= a < t.len() implies #[trigger] t[a] == (if a < i {
        s[a]
    } else {
        s[a + 1]
    }) by {}
    assert(names_unique(t)) by {
        assert forall|a: int, b: int|
            0 <= a < t.len() && 0 <= b < t.len() && a != b implies #[trigger] t[a].name@
            != #[trigger] t[b].name@ by {
            let sa = if a < i { a } else { a + 1 };
            let sb = if b < i { b } else { b + 1 };
            assert(s[sa].name@ != s[sb].name@);
        }
    }
    let m = profiles_map(s).remove(key);
    assert forall|k: Seq<char>| #[trigger] profiles_map(t).contains_key(k) == m.contains_key(k) by {
        if has_name(s, k) && k != key {
            let j = choose|j: int| 0 <= j < s.len() && #[trigger] s[j].name@ == k;
            let tj = if j < i { j } else { j - 1 };
            assert(t[tj].name@ == k);
        }
        if has_name(t, k) {
            let j = choose|j: int| 0 <= j < t.len() && #[trigger] t[j].name@ == k;
            let sj = if j < i { j } else { j + 1 };
            assert(s[sj].name@ == k);
            assert(sj != i);
        }
    }
    assert forall|k: Seq<char>| #[trigger] m.contains_key(k) implies profiles_map(t)[k] == m[k] by {
        let j = choose|j: int| 0 <= j < s.len() && #[trigger] s[j].name@ == k;
        lemma_profiles_map_at(s, j);
        let tj = if j < i { j } else { j - 1 };
        assert(t[tj] == s[j]);
        lemma_profiles_map_at(t, tj);
    }
    assert(profiles_map(t) =~= m);
}

} // verus!
