//! Source discovery: maps the host's process-name list to the identifiers of
//! supported simulations, in process-list order.

pub mod beamng;

use vstd::prelude::*;
use vstd::string::StrSliceExecFns;
use crate::telemetry::GameId;

verus! {

/// True when `s` ends with the platform executable suffix `.exe`.
pub open spec fn has_exe_suffix(s: Seq<char>) -> bool {
    &&& s.len() >= 4
    &&& s[s.len() - 4] == '.'
    &&& s[s.len() - 3] == 'e'
    &&& s[s.len() - 2] == 'x'
    &&& s[s.len() - 1] == 'e'
}

/// `s` with a trailing `.exe` removed, if present.
pub open spec fn strip_exe_suffix(s: Seq<char>) -> Seq<char> {
    if has_exe_suffix(s) {
        s.subrange(0, s.len() - 4)
    } else {
        s
    }
}

/// The static table of supported simulations: executable name (after suffix
/// stripping) to source identifier.
pub open spec fn game_for_process(s: Seq<char>) -> Option<GameId> {
    if strip_exe_suffix(s) == "BeamNG.drive.x64"@ {
        Some(GameId::BeamNg)
    } else {
        None
    }
}

/// The identifiers of the supported simulations among `names`, in order.
pub open spec fn supported_games(names: Seq<String>) -> Seq<GameId>
    decreases names.len(),
{
    if names.len() == 0 {
        Seq::empty()
    } else {
        supported_games(names.drop_last()) + match game_for_process(names.last()@) {
            Some(g) => seq![g],
            None => Seq::empty(),
        }
    }
}

/// Removes a trailing `.exe` from an executable name, if present.
fn strip_executable_suffix(name: &String) -> (r: String)
    ensures
        r@ == strip_exe_suffix(name@),
{
    let s: &str = name.as_str();
    let n: usize = s.unicode_len();
    if n >= 4 && s.get_char(n - 4) == '.' && s.get_char(n - 3) == 'e' && s.get_char(n - 2) == 'x'
        && s.get_char(n - 1) == 'e' {
        let stripped: &str = s.substring_char(0, n - 4);
        stripped.to_owned()
    } else {
        name.clone()
    }
}

/// Looks every process name up in the table of supported simulations, after
/// stripping the platform executable suffix, and returns the identifiers of
/// the matches in process-list order. The acquisition loop tries them in
/// that order and binds the first source that opens.
pub fn find_running_supported_games(process_names: &Vec<String>) -> (r: Vec<GameId>)
    ensures
        r@ == supported_games(process_names@),
{
    let beamng_name: String = "BeamNG.drive.x64".to_owned();
    let mut out: Vec<GameId> = Vec::new();
    let mut i: usize = 0;
    while i < process_names.len()
        invariant
            i <= process_names@.len(),
            out@ == supported_games(process_names@.subrange(0, i as int)),
            beamng_name@ == "BeamNG.drive.x64"@,
        decreases process_names@.len() - i,
    {
        let stripped = strip_executable_suffix(&process_names[i]);
        if stripped == beamng_name {
            out.push(GameId::BeamNg);
        }
        proof {
            let prefix = process_names@.subrange(0, i + 1);
            assert(prefix.drop_last() =~= process_names@.subrange(0, i as int));
            assert(prefix.last() == process_names@[i as int]);
        }
        i = i + 1;
    }
    proof {
        assert(process_names@.subrange(0, process_names@.len() as int) =~= process_names@);
    }
    out
}

} // verus!
