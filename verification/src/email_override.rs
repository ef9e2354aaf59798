//! Test-lab override of the signed-in user's email verification.
use vstd::prelude::*;

verus! {

/// Stored code of an override: `-1` unset, `0` forced unverified, `1` forced verified.
pub open spec fn override_code(verified: Option<bool>) -> i8 {
    match verified {
        None => -1i8,
        Some(false) => 0i8,
        Some(true) => 1i8,
    }
}

/// Override that a stored code stands for; codes other than `0` and `1` read as unset.
pub open spec fn override_of_code(code: i8) -> Option<bool> {
    if code == 0 {
        Some(false)
    } else if code == 1 {
        Some(true)
    } else {
        None
    }
}

/// One process-wide override slot, holding the override as a small code.
#[derive(Debug)]
pub struct EmailVerifiedOverride {
    code: i8,
}

impl View for EmailVerifiedOverride {
    type V = i8;

    closed spec fn view(&self) -> i8 {
        self.code
    }
}

impl EmailVerifiedOverride {
    /// A slot with no override.
    pub fn new() -> (s: Self)
        ensures
            s@ == -1,
            override_of_code(s@) == None::<bool>,
    {
        EmailVerifiedOverride { code: -1 }
    }

    /// A slot holding a stored code (as kept in an atomic cell).
    pub fn from_code(code: i8) -> (s: Self)
        ensures
            s@ == code,
    {
        EmailVerifiedOverride { code }
    }

    /// The stored code.
    pub fn code(&self) -> (c: i8)
        ensures
            c == self@,
    {
        self.code
    }
}

/// Sets the override: `None` clears it, `Some(v)` forces verification to `v`.
pub fn set_email_verified_override(slot: &mut EmailVerifiedOverride, verified: Option<bool>)
    ensures
        final(slot)@ == override_code(verified),
        override_of_code(final(slot)@) == verified,
{
    let v: i8 = match verified {
        None => -1,
        Some(false) => 0,
        Some(true) => 1,
    };
    slot.code = v;
}

/// The current override, `None` when unset.
pub fn email_verified_override(slot: &EmailVerifiedOverride) -> (r: Option<bool>)
    ensures
        r == override_of_code(slot@),
{
    match slot.code {
        0 => Some(false),
        1 => Some(true),
        _ => None,
    }
}

/// Reading the override gives back exactly what was last set.
pub proof fn override_read_after_write(verified: Option<bool>)
    ensures
        override_of_code(override_code(verified)) == verified,
{
}

} // verus!
