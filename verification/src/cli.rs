use vstd::prelude::*;

use crate::filesystem::FileSystemModificationStatus;
use crate::ipc::IPCOutput;

verus! {

/// A filesystem given on the command line as `id=path`: the identifier is
/// what precedes the first `=`, the path what follows it.
pub open spec fn split_filesystem_spec_model(s: Seq<char>) -> Option<(Seq<char>, Seq<char>)> {
    match s.index_of_first('=') {
        Some(k) => Some((s.take(k), s.skip(k + 1))),
        None => None,
    }
}

/// Splits a command-line filesystem `id=path` at its first `=`; `None` when
/// there is no `=`.
pub fn split_filesystem_spec(s: &str) -> (r: Option<(String, String)>)
    ensures
        match r {
            Some((id, path)) => split_filesystem_spec_model(s@) == Some((id@, path@)),
            None => split_filesystem_spec_model(s@) is None,
        },
{
    let n = s.unicode_len();
    let mut i: usize = 0;
    while i < n
        invariant
            n == s@.len(),
            i <= n,
            forall|j: int| 0 <= j < i ==> s@[j] != '=',
        decreases n - i,
    {
        if s.get_char(i) == '=' {
            let id = String::from_str(s.substring_char(0, i));
            let path = String::from_str(s.substring_char(i + 1, n));
            proof {
                s@.index_of_first_ensures('=');
                assert(s@[i as int] == '=');
                assert(s@.contains('='));
                let k = s@.index_of_first('=').unwrap();
                assert(k == i);
                assert(id@ =~= s@.take(k));
                assert(path@ =~= s@.skip(k + 1));
            }
            return Some((id, path));
        }
        i = i + 1;
    }
    proof { s@.index_of_first_ensures('='); }
    None
}

/// What the command-line client does with the daemon's answer.
#[derive(Debug, PartialEq, Eq)]
pub enum ClientOutcome {
    /// Exit successfully.
    Succeed,
    /// Exit with failure, without an error message.
    Fail,
    /// Print the text on a line of its own, then exit successfully.
    Print(String),
    /// Report the daemon's error.
    Error(String),
}

/// The strings of `parts` with `sep` between each two of them.
pub open spec fn seq_join(parts: Seq<Seq<char>>, sep: Seq<char>) -> Seq<char>
    decreases parts.len(),
{
    if parts.len() == 0 {
        Seq::empty()
    } else if parts.len() == 1 {
        parts[0]
    } else {
        seq_join(parts.drop_last(), sep) + sep + parts.last()
    }
}

/// The identifiers of `ids`, one per line.
pub fn join_lines(ids: &Vec<String>) -> (s: String)
    ensures
        s@ == seq_join(ids@.map_values(|x: String| x@), "\n"@),
{
    let ghost parts = ids@.map_values(|x: String| x@);
    let mut s = String::new();
    let n = ids.len();
    assert(parts.take(0) =~= Seq::<Seq<char>>::empty());
    let mut i: usize = 0;
    while i < n
        invariant
            n == ids@.len(),
            parts == ids@.map_values(|x: String| x@),
            i <= n,
            s@ == seq_join(parts.take(i as int), "\n"@),
        decreases n - i,
    {
        if i != 0 {
            s.append("\n");
        }
        s.append(ids[i].as_str());
        proof {
            let t = parts.take(i + 1);
            assert(t.drop_last() =~= parts.take(i as int));
            assert(t.last() == ids@[i as int]@);
            if i == 0 {
                assert(s@ =~= t[0]);
            }
        }
        i = i + 1;
    }
    assert(parts.take(n as int) =~= parts);
    s
}

/// What the client does with an answer: success and a modified filesystem
/// exit successfully, an unmodified filesystem exits with failure, a list is
/// printed one identifier per line, an error is reported.
pub fn client_outcome(output: IPCOutput) -> (r: ClientOutcome)
    ensures
        match output {
            IPCOutput::Success => r == ClientOutcome::Succeed,
            IPCOutput::DaemonError(e) => r == ClientOutcome::Error(e),
            IPCOutput::FileSystemStatus(FileSystemModificationStatus::Modified) => r == ClientOutcome::Succeed,
            IPCOutput::FileSystemStatus(FileSystemModificationStatus::UnModified) => r == ClientOutcome::Fail,
            IPCOutput::FileSystemList(ids) => r matches ClientOutcome::Print(text) && text@ == seq_join(
                ids@.map_values(|x: String| x@),
                "\n"@,
            ),
        },
{
    match output {
        IPCOutput::Success => ClientOutcome::Succeed,
        IPCOutput::DaemonError(e) => ClientOutcome::Error(e),
        IPCOutput::FileSystemStatus(status) => match status {
            FileSystemModificationStatus::Modified => ClientOutcome::Succeed,
            FileSystemModificationStatus::UnModified => ClientOutcome::Fail,
        },
        IPCOutput::FileSystemList(ids) => ClientOutcome::Print(join_lines(&ids)),
    }
}

} // verus!
