//! Which runtime backend serves a command.

use vstd::prelude::*;
use crate::text::{owned, push_str, str_chars, chars_eq_str};
use crate::vmm::HostOs;

verus! {

/// A runtime backend.
#[derive(Debug, Clone, Copy, PartialEq, Eq, Structural)]
pub enum BackendKind {
    /// Containers run directly on the Linux host.
    Native,
    /// Containers run inside a QEMU micro-VM.
    MicroVm,
}

/// The text of the error for an unknown backend name.
pub open spec fn unknown_backend_text(name: Seq<char>) -> Seq<char> {
    "Unknown backend: "@ + name
}

/// The backend chosen for `requested` on `os`: a named backend is taken as
/// named (`native` or `microvm`) whatever is available; otherwise the
/// native backend on Linux when available, then the micro-VM when QEMU is
/// available.
pub open spec fn choose_backend(
    requested: Option<Seq<char>>,
    os: HostOs,
    native_available: bool,
    microvm_available: bool,
) -> Option<BackendKind> {
    match requested {
        Some(n) => if n == "native"@ {
            Some(BackendKind::Native)
        } else if n == "microvm"@ {
            Some(BackendKind::MicroVm)
        } else {
            None
        },
        None => if os == HostOs::Linux && native_available {
            Some(BackendKind::Native)
        } else if microvm_available {
            Some(BackendKind::MicroVm)
        } else {
            None
        },
    }
}

/// Chooses the runtime backend. `requested` is the name the user asked
/// for; `native_available` and `microvm_available` tell whether each
/// backend can run here. Refused with the name when it is unknown, and
/// with `No runtime backend available` when nothing can run.
pub fn select_backend(
    requested: Option<&str>,
    os: HostOs,
    native_available: bool,
    microvm_available: bool,
) -> (r: Result<BackendKind, String>)
    ensures
        ({
            let req = match requested {
                Some(n) => Some(n@),
                None => None,
            };
            &&& choose_backend(req, os, native_available, microvm_available) matches Some(k) ==> r
                == Ok::<BackendKind, String>(k)
            &&& choose_backend(req, os, native_available, microvm_available) is None ==> (r matches Err(
                e,
            ) && e@ == match requested {
                Some(n) => unknown_backend_text(n@),
                None => "No runtime backend available"@,
            })
        }),
{
    match requested {
        Some(name) => {
            let cs = str_chars(name);
            if chars_eq_str(&cs, "native") {
                Ok(BackendKind::Native)
            } else if chars_eq_str(&cs, "microvm") {
                Ok(BackendKind::MicroVm)
            } else {
                let mut e = owned("Unknown backend: ");
                push_str(&mut e, name);
                Err(e)
            }
        },
        None => {
            if os == HostOs::Linux && native_available {
                Ok(BackendKind::Native)
            } else if microvm_available {
                Ok(BackendKind::MicroVm)
            } else {
                Err(owned("No runtime backend available"))
            }
        },
    }
}

/// A backend asked for by name is used whatever is available; without a
/// name, the native backend is preferred on Linux, and the choice fails
/// only when no backend can run.
pub proof fn law_backend_choice(os: HostOs, native: bool, microvm: bool, n2: bool, m2: bool)
    ensures
        choose_backend(Some("native"@), os, native, microvm) == Some(BackendKind::Native),
        choose_backend(Some("microvm"@), os, native, microvm) == Some(BackendKind::MicroVm),
        choose_backend(Some("native"@), os, native, microvm) == choose_backend(
            Some("native"@),
            os,
            n2,
            m2,
        ),
        os == HostOs::Linux && native ==> choose_backend(None, os, native, microvm) == Some(
            BackendKind::Native,
        ),
        choose_backend(None, os, native, microvm) is None <==> !microvm && !(os == HostOs::Linux
            && native),
{
    reveal_strlit("microvm");
    reveal_strlit("native");
    assert("microvm"@[0] != "native"@[0]);
}

} // verus!
