//! Cleaning the environment that the backend inherits.
//!
//! A launcher started from a self-mounting bundle runs with search paths
//! that point into the bundle, so that its own user-interface libraries are
//! found. The backend is linked on its own and crashes at load time when it
//! sees them: it must run as if it had been started outside the bundle.

use vstd::prelude::*;
use vstd::string::*;
use crate::platform::Platform;
use crate::text::texts;

verus! {

/// One environment variable.
#[derive(Clone, Debug, PartialEq, Eq)]
pub struct EnvVar {
    pub name: String,
    pub value: String,
}

/// The mathematical content of an [`EnvVar`].
pub struct EnvVarView {
    pub name: Seq<char>,
    pub value: Seq<char>,
}

impl View for EnvVar {
    type V = EnvVarView;

    open spec fn view(&self) -> EnvVarView {
        EnvVarView { name: self.name@, value: self.value@ }
    }
}

/// The variables held by a list, in order.
pub open spec fn env_view(vars: Seq<EnvVar>) -> Seq<EnvVarView> {
    Seq::new(vars.len(), |i: int| vars[i]@)
}

/// Name of the variable whose presence shows that the launcher runs from a
/// self-mounting bundle.
pub open spec fn marker_name() -> Seq<char> {
    "APPIMAGE"@
}

/// Name of the variable in which the bundle's shim saves the search path it
/// found.
pub open spec fn saved_path_name() -> Seq<char> {
    "APPIMAGE_ORIGINAL_PATH"@
}

/// Name of the executable search path.
pub open spec fn path_name() -> Seq<char> {
    "PATH"@
}

/// The variables that the bundle injects for the launcher's own libraries:
/// library search path, preload list, icon, settings, toolkit and module
/// directories, the bundle's root and markers, and the launcher's argument
/// zero.
pub open spec fn injected_names() -> Seq<Seq<char>> {
    seq![
        "LD_LIBRARY_PATH"@,
        "LD_PRELOAD"@,
        "GDK_PIXBUF_MODULEDIR"@,
        "GDK_PIXBUF_MODULE_FILE"@,
        "GSETTINGS_SCHEMA_DIR"@,
        "GTK_PATH"@,
        "GTK_EXE_PREFIX"@,
        "GTK_DATA_PREFIX"@,
        "GTK_IM_MODULE_FILE"@,
        "GIO_MODULE_DIR"@,
        "APPDIR"@,
        "APPIMAGE"@,
        "OWD"@,
        "ARGV0"@,
    ]
}

/// Whether `name` is one of the injected variables.
pub open spec fn is_injected(name: Seq<char>) -> bool {
    injected_names().contains(name)
}

/// Whether `env` holds a variable called `name`.
pub open spec fn has_var(env: Seq<EnvVarView>, name: Seq<char>) -> bool {
    exists|i: int| 0 <= i < env.len() && (#[trigger] env[i]).name == name
}

/// Position of the first variable called `name` at or after `start`.
pub open spec fn find_from(env: Seq<EnvVarView>, name: Seq<char>, start: int) -> Option<int>
    decreases env.len() - start,
{
    if start < 0 || start >= env.len() {
        None
    } else if env[start].name == name {
        Some(start)
    } else {
        find_from(env, name, start + 1)
    }
}

/// Value of the first variable called `name`, if there is one.
pub open spec fn lookup(env: Seq<EnvVarView>, name: Seq<char>) -> Option<Seq<char>> {
    match find_from(env, name, 0) {
        Some(i) => Some(env[i].value),
        None => None,
    }
}

/// What `find_from` returns: the first match at or after `start`, or
/// nothing where no variable from there on has the name.
pub proof fn lemma_find_from(env: Seq<EnvVarView>, name: Seq<char>, start: int)
    requires
        0 <= start <= env.len(),
    ensures
        match find_from(env, name, start) {
            Some(i) => start <= i < env.len() && env[i].name == name && forall|j: int|
                start <= j < i ==> (#[trigger] env[j]).name != name,
            None => forall|j: int| start <= j < env.len() ==> (#[trigger] env[j]).name != name,
        },
    decreases env.len() - start,
{
    if start < env.len() && env[start].name != name {
        lemma_find_from(env, name, start + 1);
    }
}

/// A variable can be looked up exactly when it is present.
pub proof fn lemma_lookup_present(env: Seq<EnvVarView>, name: Seq<char>)
    ensures
        lookup(env, name) is Some <==> has_var(env, name),
{
    lemma_find_from(env, name, 0);
}

/// Looks a variable up by name; the first one wins.
pub fn lookup_var(env: &Vec<EnvVar>, name: &str) -> (value: Option<String>)
    ensures
        match value {
            Some(v) => lookup(env_view(env@), name@) == Some(v@),
            None => lookup(env_view(env@), name@) is None,
        },
        value is Some <==> has_var(env_view(env@), name@),
{
    let wanted = String::from_str(name);
    let ghost vars = env_view(env@);
    let mut i: usize = 0;
    while i < env.len()
        invariant
            0 <= i <= env.len(),
            vars == env_view(env@),
            wanted@ == name@,
            find_from(vars, name@, 0) == find_from(vars, name@, i as int),
        decreases env.len() - i,
    {
        if env[i].name == wanted {
            proof {
                lemma_lookup_present(vars, name@);
            }
            return Some(env[i].value.clone());
        }
        i += 1;
    }
    proof {
        lemma_lookup_present(vars, name@);
    }
    None
}

/// What to change in the inherited environment before the backend starts.
#[derive(Clone, Debug, PartialEq, Eq)]
pub struct EnvOverrides {
    /// Names of the variables to take away.
    pub remove: Vec<String>,
    /// The value to give the executable search path, if it is to change.
    pub restored_path: Option<String>,
}

/// The mathematical content of [`EnvOverrides`].
pub struct EnvOverridesView {
    pub remove: Seq<Seq<char>>,
    pub restored_path: Option<Seq<char>>,
}

impl View for EnvOverrides {
    type V = EnvOverridesView;

    open spec fn view(&self) -> EnvOverridesView {
        EnvOverridesView {
            remove: texts(self.remove@),
            restored_path: match self.restored_path {
                Some(p) => Some(p@),
                None => None,
            },
        }
    }
}

/// The overrides that change nothing.
pub open spec fn no_overrides() -> EnvOverridesView {
    EnvOverridesView { remove: Seq::empty(), restored_path: None }
}

/// The overrides for a launcher that starts the backend from `env` on
/// `platform`. Only a Linux launcher that sees the bundle's marker changes
/// anything: it takes the injected variables away, and gives the search
/// path the value that the bundle's shim saved, where it saved one.
pub open spec fn sanitized(env: Seq<EnvVarView>, platform: Platform) -> EnvOverridesView {
    if platform == Platform::Linux && has_var(env, marker_name()) {
        EnvOverridesView {
            remove: injected_names(),
            restored_path: lookup(env, saved_path_name()),
        }
    } else {
        no_overrides()
    }
}

/// Whether a variable of the inherited environment reaches the backend as
/// it is.
pub open spec fn survives(overrides: EnvOverridesView, var: EnvVarView) -> bool {
    !overrides.remove.contains(var.name) && (overrides.restored_path is Some ==> var.name
        != path_name())
}

/// `survives` as a predicate on variables.
pub open spec fn survivor(overrides: EnvOverridesView) -> spec_fn(EnvVarView) -> bool {
    |var: EnvVarView| survives(overrides, var)
}

/// The environment that the backend sees: the inherited variables that
/// survive, in their order, then the search path if it was given a value.
pub open spec fn child_env(base: Seq<EnvVarView>, overrides: EnvOverridesView) -> Seq<
    EnvVarView,
> {
    let kept = base.filter(survivor(overrides));
    match overrides.restored_path {
        Some(p) => kept.push(EnvVarView { name: path_name(), value: p }),
        None => kept,
    }
}

fn injected_name_list() -> (names: Vec<String>)
    ensures
        texts(names@) == injected_names(),
{
    let mut names: Vec<String> = Vec::new();
    names.push(String::from_str("LD_LIBRARY_PATH"));
    names.push(String::from_str("LD_PRELOAD"));
    names.push(String::from_str("GDK_PIXBUF_MODULEDIR"));
    names.push(String::from_str("GDK_PIXBUF_MODULE_FILE"));
    names.push(String::from_str("GSETTINGS_SCHEMA_DIR"));
    names.push(String::from_str("GTK_PATH"));
    names.push(String::from_str("GTK_EXE_PREFIX"));
    names.push(String::from_str("GTK_DATA_PREFIX"));
    names.push(String::from_str("GTK_IM_MODULE_FILE"));
    names.push(String::from_str("GIO_MODULE_DIR"));
    names.push(String::from_str("APPDIR"));
    names.push(String::from_str("APPIMAGE"));
    names.push(String::from_str("OWD"));
    names.push(String::from_str("ARGV0"));
    assert(texts(names@) =~= injected_names());
    names
}

/// Decides what to change in the environment `base` before the backend is
/// started on `platform`.
pub fn sanitize(base: &Vec<EnvVar>, platform: Platform) -> (overrides: EnvOverrides)
    ensures
        overrides@ == sanitized(env_view(base@), platform),
{
    let bundled = match platform {
        Platform::Linux => lookup_var(base, "APPIMAGE").is_some(),
        _ => false,
    };
    if bundled {
        let restored_path = lookup_var(base, "APPIMAGE_ORIGINAL_PATH");
        EnvOverrides { remove: injected_name_list(), restored_path }
    } else {
        let overrides = EnvOverrides { remove: Vec::new(), restored_path: None };
        assert(overrides@.remove =~= Seq::<Seq<char>>::empty());
        overrides
    }
}

fn is_listed(names: &Vec<String>, name: &String) -> (listed: bool)
    ensures
        listed == texts(names@).contains(name@),
{
    let mut i: usize = 0;
    while i < names.len()
        invariant
            0 <= i <= names.len(),
            forall|j: int| 0 <= j < i ==> (#[trigger] texts(names@)[j]) != name@,
        decreases names.len() - i,
    {
        if names[i] == *name {
            assert(texts(names@)[i as int] == name@);
            return true;
        }
        i += 1;
    }
    false
}

impl EnvOverrides {
    /// Whether these overrides leave the environment as it is.
    pub fn is_empty(&self) -> (empty: bool)
        ensures
            empty == (self@ == no_overrides()),
    {
        let empty = self.remove.len() == 0 && self.restored_path.is_none();
        assert(empty ==> self@.remove =~= Seq::<Seq<char>>::empty());
        assert(self@.remove.len() == self.remove@.len());
        empty
    }

    /// Carries the overrides out on `base` and returns the environment that
    /// the backend sees.
    pub fn apply(&self, base: &Vec<EnvVar>) -> (env: Vec<EnvVar>)
        ensures
            env_view(env@) == child_env(env_view(base@), self@),
    {
        let path = String::from_str("PATH");
        let ghost vars = env_view(base@);
        let ghost keep = survivor(self@);
        let mut env: Vec<EnvVar> = Vec::new();
        let mut i: usize = 0;
        assert(vars.take(0) =~= Seq::<EnvVarView>::empty());
        assert(Seq::<EnvVarView>::empty().filter(keep) =~= Seq::<EnvVarView>::empty()) by {
            reveal(Seq::filter);
        }
        while i < base.len()
            invariant
                0 <= i <= base.len(),
                vars == env_view(base@),
                keep == survivor(self@),
                path@ == path_name(),
                env_view(env@) =~= vars.take(i as int).filter(keep),
            decreases base.len() - i,
        {
            let var = &base[i];
            let dropped = is_listed(&self.remove, &var.name) || (self.restored_path.is_some()
                && var.name == path);
            proof {
                assert(vars.take(i as int + 1) =~= vars.take(i as int).push(vars[i as int]));
                vars.take(i as int).lemma_filter_push(vars[i as int], keep);
                assert(dropped == !keep(vars[i as int]));
            }
            if !dropped {
                env.push(EnvVar { name: var.name.clone(), value: var.value.clone() });
            }
            i += 1;
        }
        assert(vars.take(base.len() as int) =~= vars);
        match &self.restored_path {
            Some(p) => {
                env.push(EnvVar { name: path, value: p.clone() });
            },
            None => {},
        }
        assert(env_view(env@) =~= child_env(vars, self@));
        env
    }
}

/// Filtering keeps a sequence as it is where every element passes.
pub proof fn lemma_filter_keeps_all(env: Seq<EnvVarView>, keep: spec_fn(EnvVarView) -> bool)
    requires
        forall|i: int| 0 <= i < env.len() ==> keep(#[trigger] env[i]),
    ensures
        env.filter(keep) == env,
    decreases env.len(),
{
    reveal(Seq::filter);
    if env.len() > 0 {
        lemma_filter_keeps_all(env.drop_last(), keep);
        assert(env.drop_last().push(env.last()) =~= env);
    }
}

/// The executable search path is not among the injected variables.
pub proof fn lemma_path_not_injected()
    ensures
        !is_injected(path_name()),
{
    reveal_strlit("PATH");
    reveal_strlit("LD_LIBRARY_PATH");
    reveal_strlit("LD_PRELOAD");
    reveal_strlit("GDK_PIXBUF_MODULEDIR");
    reveal_strlit("GDK_PIXBUF_MODULE_FILE");
    reveal_strlit("GSETTINGS_SCHEMA_DIR");
    reveal_strlit("GTK_PATH");
    reveal_strlit("GTK_EXE_PREFIX");
    reveal_strlit("GTK_DATA_PREFIX");
    reveal_strlit("GTK_IM_MODULE_FILE");
    reveal_strlit("GIO_MODULE_DIR");
    reveal_strlit("APPDIR");
    reveal_strlit("APPIMAGE");
    reveal_strlit("OWD");
    reveal_strlit("ARGV0");
    let names = injected_names();
    assert forall|i: int| 0 <= i < names.len() implies names[i] != path_name() by {
        assert(names[i].len() != path_name().len());
    }
}

/// Without the bundle's marker nothing changes, whatever the platform: the
/// overrides are empty and the backend sees the launcher's environment.
pub proof fn lemma_unchanged_without_marker(env: Seq<EnvVarView>, platform: Platform)
    requires
        !has_var(env, marker_name()),
    ensures
        sanitized(env, platform) == no_overrides(),
        child_env(env, sanitized(env, platform)) == env,
{
    lemma_filter_keeps_all(env, survivor(no_overrides()));
}

/// Off Linux nothing changes, marker or not.
pub proof fn lemma_unchanged_off_linux(env: Seq<EnvVarView>, platform: Platform)
    requires
        platform != Platform::Linux,
    ensures
        sanitized(env, platform) == no_overrides(),
        child_env(env, sanitized(env, platform)) == env,
{
    lemma_filter_keeps_all(env, survivor(no_overrides()));
}

/// On Linux with the bundle's marker present, none of the injected
/// variables reaches the backend.
pub proof fn lemma_injected_stripped(env: Seq<EnvVarView>)
    requires
        has_var(env, marker_name()),
    ensures
        forall|i: int|
            0 <= i < child_env(env, sanitized(env, Platform::Linux)).len() ==> !is_injected(
                (#[trigger] child_env(env, sanitized(env, Platform::Linux))[i]).name,
            ),
{
    let overrides = sanitized(env, Platform::Linux);
    let keep = survivor(overrides);
    let kept = env.filter(keep);
    let child = child_env(env, overrides);
    lemma_path_not_injected();
    assert forall|i: int| 0 <= i < child.len() implies !is_injected((#[trigger] child[i]).name) by {
        if i < kept.len() {
            env.lemma_filter_pred(keep, i);
            assert(child[i] == kept[i]);
            assert(keep(kept[i]));
        }
    }
}

/// On Linux with the bundle's marker present, a search path that the shim
/// saved becomes the backend's search path, and its only one.
pub proof fn lemma_saved_path_restored(env: Seq<EnvVarView>, saved: Seq<char>)
    requires
        has_var(env, marker_name()),
        lookup(env, saved_path_name()) == Some(saved),
    ensures
        lookup(child_env(env, sanitized(env, Platform::Linux)), path_name()) == Some(saved),
        forall|i: int|
            0 <= i < child_env(env, sanitized(env, Platform::Linux)).len() && (
            #[trigger] child_env(env, sanitized(env, Platform::Linux))[i]).name == path_name()
                ==> i == child_env(env, sanitized(env, Platform::Linux)).len() - 1,
{
    let overrides = sanitized(env, Platform::Linux);
    let keep = survivor(overrides);
    let kept = env.filter(keep);
    let child = child_env(env, overrides);
    assert forall|i: int| 0 <= i < kept.len() implies (#[trigger] child[i]).name
        != path_name() by {
        env.lemma_filter_pred(keep, i);
        assert(child[i] == kept[i]);
        assert(keep(kept[i]));
    }
    assert(child.len() == kept.len() + 1);
    assert(child[kept.len() as int] == EnvVarView { name: path_name(), value: saved });
    lemma_find_from(child, path_name(), 0);
    assert(find_from(child, path_name(), 0) == Some(kept.len() as int));
}

/// A variable that is neither injected nor the search path reaches the
/// backend, whatever the launcher runs from.
pub proof fn lemma_other_variables_kept(env: Seq<EnvVarView>, platform: Platform, i: int)
    requires
        0 <= i < env.len(),
        !is_injected(env[i].name),
        env[i].name != path_name(),
    ensures
        child_env(env, sanitized(env, platform)).contains(env[i]),
{
    let overrides = sanitized(env, platform);
    let keep = survivor(overrides);
    let kept = env.filter(keep);
    assert(keep(env[i]));
    env.lemma_filter_contains(keep, i);
    let at = choose|at: int| 0 <= at < kept.len() && kept[at] == env[i];
    assert(child_env(env, overrides)[at] == env[i]);
}

} // verus!
