//! The hart's privilege mode.

use vstd::prelude::*;

verus! {

/// Machine and User are active; Supervisor is reserved and never
/// entered by this core in normal operation.
#[derive(Clone, Copy, Debug, PartialEq, Eq, Structural)]
pub enum PrivilegeMode {
    User,
    Supervisor,
    Machine,
}

impl PrivilegeMode {
    /// The architectural encoding of the mode: User 0, Supervisor 1,
    /// Machine 3.
    pub open spec fn spec_code(self) -> u32 {
        match self {
            PrivilegeMode::User => 0,
            PrivilegeMode::Supervisor => 1,
            PrivilegeMode::Machine => 3,
        }
    }

    #[verifier::when_used_as_spec(spec_code)]
    pub fn code(self) -> (r: u32)
        ensures
            r == self.spec_code(),
    {
        match self {
            PrivilegeMode::User => 0,
            PrivilegeMode::Supervisor => 1,
            PrivilegeMode::Machine => 3,
        }
    }

    /// The mode a given two-bit encoding selects; the reserved value 2
    /// falls back to Machine.
    pub open spec fn spec_from_code(code: u32) -> PrivilegeMode {
        if code == 0 {
            PrivilegeMode::User
        } else if code == 1 {
            PrivilegeMode::Supervisor
        } else {
            PrivilegeMode::Machine
        }
    }

    #[verifier::when_used_as_spec(spec_from_code)]
    pub fn from_code(code: u32) -> (r: PrivilegeMode)
        ensures
            r == PrivilegeMode::spec_from_code(code),
    {
        if code == 0 {
            PrivilegeMode::User
        } else if code == 1 {
            PrivilegeMode::Supervisor
        } else {
            PrivilegeMode::Machine
        }
    }
}

} // verus!
