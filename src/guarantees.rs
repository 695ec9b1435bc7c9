use vstd::prelude::*;
use vstd::utf8::{decode_utf8, valid_utf8};
use crate::categories::category_set;
use crate::query::requested_category;
use crate::fortune::{all_flag, error_message, fortune_args_of, fortune_outcome, FortuneError};
use crate::reply::{fortune_reply_of, object_json, STATUS_NOT_FOUND, STATUS_OK};

verus! {

/// The categories reply for an index built from a directory listing is the
/// JSON object over the index's set, and that set holds exactly the
/// listing's names that hold no `.`.
pub proof fn categories_reply_keys_are_listing(entries: Seq<Seq<char>>, n: Seq<char>)
    ensures
        category_set(entries).contains(n) <==> (entries.contains(n) && !n.contains('.')),
{
}

/// The index depends on which names the listing holds, not on their order
/// or repetition: two listings with the same names give the same index, and
/// so the same categories reply.
pub proof fn index_is_stable(a: Seq<Seq<char>>, b: Seq<Seq<char>>)
    requires
        forall|n: Seq<char>| a.contains(n) <==> b.contains(n),
    ensures
        category_set(a) == category_set(b),
        object_json(category_set(a)) == object_json(category_set(b)),
{
    assert(category_set(a) =~= category_set(b));
}

/// An empty category, which is also what a request without a query asks
/// for, is handed to the program as it stands, and a normal run with UTF-8
/// output then gives that output, not an error.
pub proof fn empty_category_gives_default(stdout: Seq<u8>)
    requires
        valid_utf8(stdout),
    ensures
        requested_category(None) == Seq::<char>::empty(),
        fortune_args_of(requested_category(None)) == seq![all_flag(), Seq::<char>::empty()],
        fortune_outcome(Some((true, stdout))) == Ok::<Seq<char>, FortuneError>(decode_utf8(stdout)),
        fortune_reply_of(fortune_outcome(Some((true, stdout)))) == (STATUS_OK, decode_utf8(stdout)),
{
}

/// Every failed request for a fortune is answered with status 404 and a
/// non-empty message.
pub proof fn failure_is_not_found(run: Option<(bool, Seq<u8>)>)
    requires
        fortune_outcome(run) is Err,
    ensures
        fortune_reply_of(fortune_outcome(run)).0 == STATUS_NOT_FOUND,
        fortune_reply_of(fortune_outcome(run)).1.len() > 0,
{
    reveal_strlit("Fail to load fortune");
    reveal_strlit("Fail to parse fortune");
    assert(error_message(FortuneError::ExecutionFailed).len() > 0);
    assert(error_message(FortuneError::DecodeFailed).len() > 0);
}

/// A normal run that writes non-empty UTF-8 text is answered with status 200
/// and that text, which is not empty.
pub proof fn good_run_is_ok(stdout: Seq<u8>)
    requires
        valid_utf8(stdout),
        stdout.len() > 0,
    ensures
        fortune_reply_of(fortune_outcome(Some((true, stdout)))) == (STATUS_OK, decode_utf8(stdout)),
        decode_utf8(stdout).len() > 0,
{
}

/// A run that could not start, or did not exit normally, is answered with
/// status 404 and the message `Fail to load fortune`.
pub proof fn failed_run_is_load_error(run: Option<(bool, Seq<u8>)>)
    requires
        match run {
            None => true,
            Some((succeeded, _)) => !succeeded,
        },
    ensures
        fortune_reply_of(fortune_outcome(run)) == (STATUS_NOT_FOUND, "Fail to load fortune"@),
{
}

} // verus!
