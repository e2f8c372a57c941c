//! The intercept-and-chain registry used for both the window-procedure hook
//! and the buffer-swap hook: it owns the saved original entry point while an
//! intercept is active, refuses a second install while one is active, and
//! reverses the installation exactly on removal.

use vstd::prelude::*;

verus! {

/// What an install attempt does to a registry holding `saved`, given the
/// original entry point `original` read from the target: it succeeds exactly
/// when no hook is installed and the entry point is not null, and only then
/// changes the registry.
pub open spec fn spec_install(saved: Option<u64>, original: u64) -> (bool, Option<u64>) {
    if saved is None && original != 0 {
        (true, Some(original))
    } else {
        (false, saved)
    }
}

/// What an uninstall does: it hands back the saved entry point to restore,
/// and fails — changing nothing — when no hook is installed.
pub open spec fn spec_uninstall(saved: Option<u64>) -> (Option<u64>, Option<u64>) {
    match saved {
        Some(p) => (Some(p), None),
        None => (None, None),
    }
}

/// Owner of one installed intercept: the saved original entry point, kept
/// only while the hook is active.  The entry point is carried as the bits of
/// the platform's function pointer; 0 is the null entry point, which is
/// never saved.
pub struct HookRegistry {
    pub saved: Option<u64>,
}

impl HookRegistry {
    /// True while a hook is installed.
    pub open spec fn spec_installed(self) -> bool {
        self.saved is Some
    }

    /// A registry with no hook installed.
    pub fn new() -> (r: HookRegistry)
        ensures
            r.saved is None,
    {
        HookRegistry { saved: None }
    }

    /// True while a hook is installed.
    pub fn is_installed(&self) -> (r: bool)
        ensures
            r == self.spec_installed(),
    {
        self.saved.is_some()
    }

    /// Installs the intercept, saving the original entry point for chaining
    /// and removal.  Refuses a second install while one is active, and
    /// refuses a null entry point; a refusal changes nothing.
    pub fn install(&mut self, original: u64) -> (ok: bool)
        ensures
            (ok, final(self).saved) == spec_install(old(self).saved, original),
            ok <==> old(self).saved is None && original != 0,
            !ok ==> *final(self) == *old(self),
    {
        if self.saved.is_some() || original == 0 {
            return false;
        }
        self.saved = Some(original);
        true
    }

    /// Uninstalls the intercept, handing back the saved entry point so the
    /// caller can restore it.  Fails, with nothing changed and nothing to
    /// restore, when no hook is installed.
    pub fn uninstall(&mut self) -> (restore: Option<u64>)
        ensures
            (restore, final(self).saved) == spec_uninstall(old(self).saved),
            restore is Some <==> old(self).saved is Some,
            restore is Some ==> restore == old(self).saved && final(self).saved is None,
            restore is None ==> *final(self) == *old(self),
    {
        match self.saved {
            Some(p) => {
                self.saved = None;
                Some(p)
            },
            None => None,
        }
    }
}

/// Law: hook installation is idempotent in effect.  Installing on a fresh
/// registry succeeds; a second install — with any entry point — fails and
/// leaves the first saved entry point uncorrupted, so exactly one hook is
/// installed.  Uninstalling with no hook installed fails and changes
/// nothing.
pub proof fn lemma_hook_install_idempotent(p1: u64, p2: u64)
    requires
        p1 != 0,
    ensures
        ({
            let (ok1, s1) = spec_install(None, p1);
            let (ok2, s2) = spec_install(s1, p2);
            ok1 && !ok2 && s1 == Some(p1) && s2 == Some(p1)
        }),
        spec_uninstall(None) == (None::<u64>, None::<u64>),
{
}

} // verus!
