use vstd::prelude::*;

verus! {

/// The fixed descriptive name the platform gives the defined signal with
/// number `n`, such as the text "SIGKILL" for signal 9.
pub uninterp spec fn signal_text(n: int) -> Seq<char>;

/// Whether `n` is a signal number the platform defines. On Linux the
/// defined signals are exactly the numbers 1 through 31; the real-time
/// range above them carries no textual name.
pub open spec fn is_defined_signal(n: int) -> bool {
    1 <= n <= 31
}

/// Relies on nix's Signal::try_from and Signal::as_str: try_from returns Ok
/// exactly for the signal numbers the platform defines (on Linux, the libc
/// constants SIGHUP through SIGSYS, which are 1 through 31), and as_str
/// maps each signal to a fixed name determined by the signal number alone.
#[verifier::external_body]
fn platform_signal_name(signal: i32) -> (r: Option<String>)
    ensures
        (r is Some) == is_defined_signal(signal as int),
        r matches Some(name) ==> name@ == signal_text(signal as int),
{
    match nix::sys::signal::Signal::try_from(signal) {
        Ok(sig) => Some(sig.as_str().to_string()),
        Err(_) => None,
    }
}

/// Resolves a signal number to the platform's descriptive name. Yields no
/// value either for a number the platform does not define — any integer is
/// safe to pass — or when the platform's description is empty; a returned
/// name is never empty.
pub fn strsignal(signal: i32) -> (r: Option<String>)
    ensures
        (r is Some) == (is_defined_signal(signal as int) && signal_text(signal as int).len() > 0),
        r matches Some(name) ==> name@ == signal_text(signal as int) && name@.len() > 0,
{
    match platform_signal_name(signal) {
        Some(name) => {
            if name.as_str().unicode_len() == 0 {
                None
            } else {
                Some(name)
            }
        },
        None => None,
    }
}

} // verus!
