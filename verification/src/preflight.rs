//! What the probe of the `pactl` tool amounts to.
use crate::text::{chars_of, push_str, string_of};
use vstd::prelude::*;

verus! {

/// How running `pactl --version` went.
pub enum PactlProbe {
    /// It did not finish in time.
    TimedOut,
    /// It ran; `status` is how the exit status is displayed.
    Exited { success: bool, status: String },
    /// There is no `pactl` to run.
    NotFound,
    /// It could not be run; `error` is how the error is displayed.
    CouldNotRun { error: String },
}

/// The advice shown when `pactl` is missing.
pub open spec fn pactl_missing_text() -> Seq<char> {
    "pactl not found. Install PulseAudio or PipeWire-pulse:\n  Debian/Ubuntu: sudo apt install pulseaudio-utils\n  Fedora:        sudo dnf install pulseaudio-utils\n  Arch:          sudo pacman -S libpulse"@
}

/// Whether `pactl` is usable, and if not, why.
pub fn check_pactl_outcome(probe: PactlProbe) -> (r: Result<(), String>)
    ensures
        match probe {
            PactlProbe::TimedOut => r matches Err(m) && m@ == "pactl --version timed out"@,
            PactlProbe::Exited { success, status } => if success {
                r is Ok
            } else {
                r matches Err(m) && m@ == "pactl is present but not working (exit status "@ + status@ + ")"@
            },
            PactlProbe::NotFound => r matches Err(m) && m@ == pactl_missing_text(),
            PactlProbe::CouldNotRun { error } => r matches Err(m) && m@ == "pactl could not be executed: "@ + error@,
        },
{
    match probe {
        PactlProbe::TimedOut => Err(String::from_str("pactl --version timed out")),
        PactlProbe::Exited { success, status } => {
            if success {
                Ok(())
            } else {
                let mut m = chars_of("pactl is present but not working (exit status ");
                push_str(&mut m, status.as_str());
                push_str(&mut m, ")");
                Err(string_of(&m))
            }
        },
        PactlProbe::NotFound => Err(String::from_str(
            "pactl not found. Install PulseAudio or PipeWire-pulse:\n  Debian/Ubuntu: sudo apt install pulseaudio-utils\n  Fedora:        sudo dnf install pulseaudio-utils\n  Arch:          sudo pacman -S libpulse",
        )),
        PactlProbe::CouldNotRun { error } => {
            let mut m = chars_of("pactl could not be executed: ");
            push_str(&mut m, error.as_str());
            Err(string_of(&m))
        },
    }
}

} // verus!
