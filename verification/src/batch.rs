//! The account of a batch: what became of each file, and the result that
//! the attempts add up to.

use vstd::prelude::*;
use vstd::string::*;

verus! {

/// What became of one file of a batch.
#[derive(Debug, Clone, PartialEq, Eq)]
pub enum Outcome {
    /// The file was renamed.
    Renamed,
    /// The rename was tried and refused; the string is the system's message.
    Failed(String),
    /// The path has no directory or no file name, so nothing was tried.
    Invalid,
}

/// An `Outcome` with its message as a sequence of characters.
pub enum OutcomeView {
    Renamed,
    Failed(Seq<char>),
    Invalid,
}

impl View for Outcome {
    type V = OutcomeView;

    open spec fn view(&self) -> OutcomeView {
        match self {
            Outcome::Renamed => OutcomeView::Renamed,
            Outcome::Failed(message) => OutcomeView::Failed(message@),
            Outcome::Invalid => OutcomeView::Invalid,
        }
    }
}

impl DeepView for Outcome {
    type V = OutcomeView;

    open spec fn deep_view(&self) -> OutcomeView {
        self@
    }
}

/// One file of a batch as contracts see it: its path and what became of it.
pub type AttemptView = (Seq<char>, OutcomeView);

/// The result of a batch.
#[derive(Debug, Clone, PartialEq, Eq)]
pub struct RenameResult {
    /// Whether the batch counts as a success: a file was renamed, or nothing
    /// went wrong.
    pub success: bool,
    /// How many files were renamed.
    pub renamed: usize,
    /// One message for each file that was not renamed, in the order of the batch.
    pub errors: Vec<String>,
}

/// A `RenameResult` as contracts see it.
pub struct RenameResultView {
    pub success: bool,
    pub renamed: nat,
    pub errors: Seq<Seq<char>>,
}

impl View for RenameResult {
    type V = RenameResultView;

    open spec fn view(&self) -> RenameResultView {
        RenameResultView {
            success: self.success,
            renamed: self.renamed as nat,
            errors: self.errors.deep_view(),
        }
    }
}

impl RenameResultView {
    /// The flag agrees with the counts: the batch is a success exactly where
    /// a file was renamed or no message was left.
    pub open spec fn consistent(self) -> bool {
        self.success <==> self.renamed > 0 || self.errors.len() == 0
    }
}

/// The message that a file leaves in the result; a renamed file leaves none.
pub open spec fn error_line(path: Seq<char>, outcome: OutcomeView) -> Option<Seq<char>> {
    match outcome {
        OutcomeView::Renamed => None,
        OutcomeView::Failed(message) => Some("Failed to rename "@ + path + ": "@ + message),
        OutcomeView::Invalid => Some("Invalid path: "@ + path),
    }
}

/// The result that holds these counts: a batch succeeds where it renamed a
/// file or left no message.
pub open spec fn tally(renamed: nat, errors: Seq<Seq<char>>) -> RenameResultView {
    RenameResultView { success: renamed > 0 || errors.len() == 0, renamed, errors }
}

/// The result after one more file: `before` with the file counted or its
/// message added at the end.
pub open spec fn recorded(
    before: RenameResultView,
    path: Seq<char>,
    outcome: OutcomeView,
) -> RenameResultView {
    match error_line(path, outcome) {
        None => tally(before.renamed + 1, before.errors),
        Some(line) => tally(before.renamed, before.errors.push(line)),
    }
}

/// How many of the attempts renamed their file.
pub open spec fn renamed_count(attempts: Seq<AttemptView>) -> nat
    decreases attempts.len(),
{
    if attempts.len() == 0 {
        0
    } else if attempts.last().1 is Renamed {
        renamed_count(attempts.drop_last()) + 1
    } else {
        renamed_count(attempts.drop_last())
    }
}

/// The messages of the attempts that renamed nothing, in their order.
pub open spec fn error_lines(attempts: Seq<AttemptView>) -> Seq<Seq<char>>
    decreases attempts.len(),
{
    if attempts.len() == 0 {
        Seq::empty()
    } else {
        match error_line(attempts.last().0, attempts.last().1) {
            None => error_lines(attempts.drop_last()),
            Some(line) => error_lines(attempts.drop_last()).push(line),
        }
    }
}

/// The result of a whole batch.
pub open spec fn summary(attempts: Seq<AttemptView>) -> RenameResultView {
    tally(renamed_count(attempts), error_lines(attempts))
}

/// Writes the message that a file leaves in the result.
pub fn error_message(path: &str, outcome: &Outcome) -> (result: Option<String>)
    ensures
        result.deep_view() == error_line(path@, outcome@),
{
    match outcome {
        Outcome::Renamed => None,
        Outcome::Failed(message) => {
            let mut line = String::from_str("Failed to rename ");
            line.append(path);
            line.append(": ");
            line.append(message.as_str());
            Some(line)
        },
        Outcome::Invalid => {
            let mut line = String::from_str("Invalid path: ");
            line.append(path);
            Some(line)
        },
    }
}

impl RenameResult {
    /// The result of a batch without files: nothing renamed, nothing wrong.
    pub fn new() -> (result: RenameResult)
        ensures
            result.success,
            result.renamed == 0,
            result.errors@.len() == 0,
            result@ == summary(Seq::empty()),
    {
        let result = RenameResult { success: true, renamed: 0, errors: Vec::new() };
        assert(result.errors.deep_view() =~= Seq::empty());
        result
    }

    /// Enters one more file: counts it if it was renamed, else adds its message.
    pub fn record(self, path: &str, outcome: &Outcome) -> (result: RenameResult)
        requires
            outcome is Renamed ==> self.renamed < usize::MAX,
        ensures
            result@ == recorded(self@, path@, outcome@),
            result@.consistent(),
    {
        let mut next = self;
        match error_message(path, outcome) {
            None => {
                next.renamed = next.renamed + 1;
                next.success = true;
            },
            Some(line) => {
                let ghost before = next.errors.deep_view();
                next.errors.push(line);
                assert(next.errors.deep_view() =~= before.push(line@));
                next.success = next.renamed > 0;
            },
        }
        next
    }
}

/// Adding a file at the end of a batch records it in the batch's result.
pub proof fn lemma_summary_push(attempts: Seq<AttemptView>, path: Seq<char>, outcome: OutcomeView)
    ensures
        summary(attempts.push((path, outcome))) == recorded(summary(attempts), path, outcome),
{
    let longer = attempts.push((path, outcome));
    assert(longer.drop_last() =~= attempts);
    assert(longer.last() == (path, outcome));
}

/// Every file of a batch is either counted as renamed or leaves exactly one
/// message: the two add up to the number of files, so the count of renamed
/// files never exceeds it.
pub proof fn lemma_every_file_accounted(attempts: Seq<AttemptView>)
    ensures
        summary(attempts).renamed + summary(attempts).errors.len() == attempts.len(),
        summary(attempts).renamed <= attempts.len(),
    decreases attempts.len(),
{
    if attempts.len() > 0 {
        lemma_every_file_accounted(attempts.drop_last());
    }
}

/// A batch renamed at least one file if and only if one of its attempts did.
pub proof fn lemma_renamed_some(attempts: Seq<AttemptView>)
    ensures
        summary(attempts).renamed > 0 <==> exists|i: int|
            0 <= i < attempts.len() && #[trigger] attempts[i].1 is Renamed,
    decreases attempts.len(),
{
    if attempts.len() > 0 {
        let front = attempts.drop_last();
        lemma_renamed_some(front);
        if renamed_count(attempts) > 0 {
            if attempts.last().1 is Renamed {
                assert(attempts[attempts.len() - 1].1 is Renamed);
            } else {
                let i = choose|i: int| 0 <= i < front.len() && #[trigger] front[i].1 is Renamed;
                assert(attempts[i].1 is Renamed);
            }
        }
        if exists|i: int| 0 <= i < attempts.len() && #[trigger] attempts[i].1 is Renamed {
            let i = choose|i: int| 0 <= i < attempts.len() && #[trigger] attempts[i].1 is Renamed;
            if i < front.len() {
                assert(front[i].1 is Renamed);
            }
        }
    }
}

/// A batch with at least one file in which every rename went through counts
/// them all, leaves no message and is a success.
pub proof fn lemma_all_renamed(attempts: Seq<AttemptView>)
    requires
        attempts.len() > 0,
        forall|i: int| 0 <= i < attempts.len() ==> #[trigger] attempts[i].1 is Renamed,
    ensures
        summary(attempts).renamed == attempts.len(),
        summary(attempts).errors == Seq::<Seq<char>>::empty(),
        summary(attempts).success,
{
    lemma_every_file_accounted(attempts);
    lemma_no_message_without_failure(attempts);
}

/// A batch in which every rename went through leaves no message.
proof fn lemma_no_message_without_failure(attempts: Seq<AttemptView>)
    requires
        forall|i: int| 0 <= i < attempts.len() ==> #[trigger] attempts[i].1 is Renamed,
    ensures
        error_lines(attempts) =~= Seq::<Seq<char>>::empty(),
    decreases attempts.len(),
{
    if attempts.len() > 0 {
        let front = attempts.drop_last();
        assert forall|i: int| 0 <= i < front.len() implies #[trigger] front[i].1 is Renamed by {
            assert(attempts[i].1 is Renamed);
        }
        lemma_no_message_without_failure(front);
        assert(attempts[attempts.len() - 1].1 is Renamed);
    }
}

/// A batch with at least one file in which no rename went through, because
/// it was refused or the path was invalid, counts none, leaves one message
/// for each file and is a failure.
pub proof fn lemma_none_renamed(attempts: Seq<AttemptView>)
    requires
        attempts.len() > 0,
        forall|i: int| 0 <= i < attempts.len() ==> !(#[trigger] attempts[i].1 is Renamed),
    ensures
        summary(attempts).renamed == 0,
        summary(attempts).errors.len() == attempts.len(),
        !summary(attempts).success,
{
    lemma_every_file_accounted(attempts);
    lemma_renamed_some(attempts);
}

/// A batch in which one rename went through and another did not is still a
/// success, and each file is either counted or has left one message.
pub proof fn lemma_partial_success(attempts: Seq<AttemptView>, done: int, failed: int)
    requires
        0 <= done < attempts.len(),
        0 <= failed < attempts.len(),
        attempts[done].1 is Renamed,
        !(attempts[failed].1 is Renamed),
    ensures
        summary(attempts).success,
        summary(attempts).renamed > 0,
        summary(attempts).errors.len() > 0,
        summary(attempts).renamed + summary(attempts).errors.len() == attempts.len(),
{
    lemma_every_file_accounted(attempts);
    lemma_renamed_some(attempts);
    lemma_failed_some(attempts, failed);
}

/// An attempt that renamed nothing keeps the count of renamed files below
/// the number of files.
proof fn lemma_failed_some(attempts: Seq<AttemptView>, failed: int)
    requires
        0 <= failed < attempts.len(),
        !(attempts[failed].1 is Renamed),
    ensures
        renamed_count(attempts) < attempts.len(),
    decreases attempts.len(),
{
    let front = attempts.drop_last();
    lemma_every_file_accounted(front);
    if failed < front.len() {
        assert(front[failed] == attempts[failed]);
        lemma_failed_some(front, failed);
    }
}

/// The messages of a batch stand in the order of its files: the message of
/// an attempt that renamed nothing is the last one among those of the
/// attempts up to it.
pub proof fn lemma_messages_in_order(attempts: Seq<AttemptView>, i: int)
    requires
        0 <= i < attempts.len(),
        !(attempts[i].1 is Renamed),
    ensures
        error_lines(attempts.take(i + 1)).len() > 0,
        Some(error_lines(attempts.take(i + 1)).last()) == error_line(attempts[i].0, attempts[i].1),
        error_lines(attempts.take(i + 1)).is_prefix_of(error_lines(attempts)),
{
    let upto = attempts.take(i + 1);
    assert(upto.last() == attempts[i]);
    lemma_messages_grow(attempts, i + 1);
}

/// The messages of the first `n` files are the first messages of the batch.
proof fn lemma_messages_grow(attempts: Seq<AttemptView>, n: int)
    requires
        0 <= n <= attempts.len(),
    ensures
        error_lines(attempts.take(n)).is_prefix_of(error_lines(attempts)),
    decreases attempts.len() - n,
{
    if n == attempts.len() {
        assert(attempts.take(n) =~= attempts);
    } else {
        lemma_messages_grow(attempts, n + 1);
        assert(attempts.take(n + 1).drop_last() =~= attempts.take(n));
    }
}

/// Adds up a batch: the files renamed and the messages of the others.
pub fn summarize(attempts: &Vec<(String, Outcome)>) -> (result: RenameResult)
    ensures
        result@ == summary(attempts.deep_view()),
        result@.consistent(),
        result.renamed + result.errors.len() == attempts.len(),
{
    let ghost all = attempts.deep_view();
    let mut result = RenameResult::new();
    let mut i: usize = 0;
    assert(all.take(0) =~= Seq::empty());
    while i < attempts.len()
        invariant
            i <= attempts.len(),
            all == attempts.deep_view(),
            result@ == summary(all.take(i as int)),
            result.renamed <= i,
        decreases attempts.len() - i,
    {
        let attempt = &attempts[i];
        proof {
            lemma_summary_push(all.take(i as int), attempt.0@, attempt.1@);
            assert(all.take(i as int).push((attempt.0@, attempt.1@)) =~= all.take(i + 1));
        }
        result = result.record(attempt.0.as_str(), &attempt.1);
        i += 1;
    }
    proof {
        assert(all.take(i as int) =~= all);
        lemma_every_file_accounted(all);
    }
    result
}

} // verus!
