//! Properties of the sink that relate several steps, proved over the models
//! that the functions' contracts use.
use vstd::prelude::*;

use crate::clock::millis_of;
use crate::line::{level_name, line_of, pad_right, record_of, Level, LEVEL_WIDTH};
use crate::sink::{
    content_after_setup, content_after_step, outcome_of, plan_of, slot_free_after, step_of,
    Access, Setup, SetupError, SetupPlan,
};
use crate::text::{decimal, digit_char};

verus! {

/// Whether a text holds no line break.
pub open spec fn no_break(s: Seq<char>) -> bool {
    forall|i: int| 0 <= i < s.len() ==> s[i] != '\n'
}

/// The number of line breaks in a text.
pub open spec fn line_breaks(s: Seq<char>) -> nat
    decreases s.len(),
{
    if s.len() == 0 {
        0
    } else {
        line_breaks(s.drop_last()) + if s.last() == '\n' { 1nat } else { 0nat }
    }
}

/// One logged record: level, milliseconds, target and message.
pub type Entry = (Level, nat, Seq<char>, Seq<char>);

/// The records' texts, one after the other in the order given.
pub open spec fn joined(entries: Seq<Entry>) -> Seq<char>
    decreases entries.len(),
{
    if entries.len() == 0 {
        Seq::empty()
    } else {
        let e = entries.last();
        joined(entries.drop_last()) + record_of(e.0, e.1, e.2, e.3)
    }
}

/// What a file that held `content` holds after the records were logged in
/// turn, each one enabled and each reopening, if any, successful.
pub open spec fn log_all(access: Access, content: Seq<char>, entries: Seq<Entry>) -> Seq<char>
    decreases entries.len(),
{
    if entries.len() == 0 {
        content
    } else {
        let e = entries.last();
        content_after_step(
            log_all(access, content, entries.drop_last()),
            step_of(access, true, e.0, e.1, e.2, e.3),
            true,
        )
    }
}

/// Whether no record's target or message holds a line break.
pub open spec fn entries_single_line(entries: Seq<Entry>) -> bool {
    forall|k: int| 0 <= k < entries.len() ==> no_break(#[trigger] entries[k].2) && no_break(entries[k].3)
}

proof fn lemma_line_breaks_concat(a: Seq<char>, b: Seq<char>)
    ensures
        line_breaks(a + b) == line_breaks(a) + line_breaks(b),
    decreases b.len(),
{
    if b.len() == 0 {
        assert(a + b =~= a);
    } else {
        lemma_line_breaks_concat(a, b.drop_last());
        assert((a + b).drop_last() =~= a + b.drop_last());
    }
}

proof fn lemma_no_break_count(s: Seq<char>)
    requires
        no_break(s),
    ensures
        line_breaks(s) == 0,
    decreases s.len(),
{
    if s.len() > 0 {
        assert(no_break(s.drop_last()));
        lemma_no_break_count(s.drop_last());
    }
}

proof fn lemma_no_break_concat(a: Seq<char>, b: Seq<char>)
    requires
        no_break(a),
        no_break(b),
    ensures
        no_break(a + b),
{
    assert forall|i: int| 0 <= i < (a + b).len() implies (a + b)[i] != '\n' by {
        if i >= a.len() {
            assert((a + b)[i] == b[i - a.len()]);
        }
    }
}

proof fn lemma_decimal_no_break(n: nat)
    ensures
        no_break(decimal(n)),
    decreases n,
{
    if n >= 10 {
        lemma_decimal_no_break(n / 10);
        lemma_no_break_concat(decimal(n / 10), seq![digit_char(n % 10)]);
        assert(decimal(n) =~= decimal(n / 10) + seq![digit_char(n % 10)]);
    }
}

proof fn lemma_padded_name_no_break(level: Level)
    ensures
        no_break(pad_right(level_name(level), LEVEL_WIDTH as nat)),
{
    let p = pad_right(level_name(level), LEVEL_WIDTH as nat);
    match level {
        Level::Error => assert(p =~= seq!['E', 'R', 'R', 'O', 'R']),
        Level::Warn => assert(p =~= seq!['W', 'A', 'R', 'N', ' ']),
        Level::Info => assert(p =~= seq!['I', 'N', 'F', 'O', ' ']),
        Level::Debug => assert(p =~= seq!['D', 'E', 'B', 'U', 'G']),
        Level::Trace => assert(p =~= seq!['T', 'R', 'A', 'C', 'E']),
    }
}

/// A record whose target and message hold no line break is written as
/// exactly one line: its text holds one line break, at its end.
pub proof fn lemma_record_is_one_line(level: Level, millis: nat, target: Seq<char>, message: Seq<char>)
    requires
        no_break(target),
        no_break(message),
    ensures
        no_break(line_of(level, millis, target, message)),
        line_breaks(record_of(level, millis, target, message)) == 1,
        record_of(level, millis, target, message).last() == '\n',
{
    let a = seq!['['];
    let b = pad_right(level_name(level), LEVEL_WIDTH as nat);
    let c = seq![']', ' '];
    let d = decimal(millis);
    let e = seq![' ', '['];
    let f = seq![']', ' '];
    lemma_padded_name_no_break(level);
    lemma_decimal_no_break(millis);
    assert(no_break(a));
    assert(no_break(c));
    assert(no_break(e));
    assert(no_break(f));
    lemma_no_break_concat(a, b);
    lemma_no_break_concat(a + b, c);
    lemma_no_break_concat(a + b + c, d);
    lemma_no_break_concat(a + b + c + d, e);
    lemma_no_break_concat(a + b + c + d + e, target);
    lemma_no_break_concat(a + b + c + d + e + target, f);
    lemma_no_break_concat(a + b + c + d + e + target + f, message);
    let l = line_of(level, millis, target, message);
    assert(l == a + b + c + d + e + target + f + message);
    lemma_no_break_count(l);
    assert(record_of(level, millis, target, message).drop_last() =~= l);
}

/// A record that the filter rejects changes nothing: the file keeps its
/// content, whatever the access and whether or not a reopening would succeed.
pub proof fn lemma_disabled_writes_nothing(
    access: Access,
    level: Level,
    millis: nat,
    target: Seq<char>,
    message: Seq<char>,
    content: Seq<char>,
    opened: bool,
)
    ensures
        step_of(access, false, level, millis, target, message) is None,
        content_after_step(content, step_of(access, false, level, millis, target, message), opened)
            == content,
{
}

/// Logging enabled records one after another appends their texts in call
/// order, one record each; where no target or message holds a line break,
/// the appended text holds exactly as many lines as there were records.
pub proof fn lemma_records_append_in_order(access: Access, content: Seq<char>, entries: Seq<Entry>)
    ensures
        log_all(access, content, entries) == content + joined(entries),
        entries_single_line(entries) ==> line_breaks(joined(entries)) == entries.len(),
    decreases entries.len(),
{
    if entries.len() == 0 {
        assert(content + joined(entries) =~= content);
    } else {
        let rest = entries.drop_last();
        let e = entries.last();
        lemma_records_append_in_order(access, content, rest);
        assert(content + joined(entries) =~= (content + joined(rest)) + record_of(e.0, e.1, e.2, e.3));
        if entries_single_line(entries) {
            assert forall|k: int| 0 <= k < rest.len() implies no_break(#[trigger] rest[k].2) && no_break(rest[k].3) by {
                assert(rest[k] == entries[k]);
            }
            assert(entries[entries.len() - 1] == e);
            lemma_record_is_one_line(e.0, e.1, e.2, e.3);
            lemma_line_breaks_concat(joined(rest), record_of(e.0, e.1, e.2, e.3));
        }
    }
}

/// Whether a setup following `plan` got past opening its file: one with
/// transient access opens nothing, one that holds a handle needs its open to
/// succeed.
pub open spec fn opened_at_setup(plan: SetupPlan, open_succeeded: bool) -> bool {
    plan.access == Access::Transient || open_succeeded
}

/// A first setup that gets past opening its file succeeds and takes the
/// registration slot. A second one in the same process then fails and the
/// slot stays taken, so no second sink becomes active; where it got past
/// opening its file, it fails as already registered.
pub proof fn lemma_second_setup_fails(
    first: Setup,
    first_open_succeeded: bool,
    second: Setup,
    second_open_succeeded: bool,
)
    requires
        opened_at_setup(plan_of(first), first_open_succeeded),
    ensures
        ({
            let first_outcome = outcome_of(opened_at_setup(plan_of(first), first_open_succeeded), true);
            let slot_free = slot_free_after(true, first_outcome);
            let second_opened = opened_at_setup(plan_of(second), second_open_succeeded);
            let second_outcome = outcome_of(second_opened, slot_free);
            &&& first_outcome is Ok
            &&& !slot_free
            &&& second_outcome is Err
            &&& !slot_free_after(slot_free, second_outcome)
            &&& second_opened ==> second_outcome == Err::<(), SetupError>(SetupError::AlreadyRegistered)
        }),
{
}

/// A later clock reading never gives an earlier time stamp, as long as both
/// readings fit in a `u64`.
pub proof fn lemma_timestamp_monotone(earlier: Option<u128>, later: Option<u128>)
    requires
        earlier is Some ==> later is Some && earlier->0 <= later->0,
        later is Some ==> later->0 <= u64::MAX,
    ensures
        millis_of(earlier) <= millis_of(later),
{
}

/// Setting up with `truncate_transient` and logging one enabled record
/// leaves the file holding that record alone, whatever it held before; it
/// is a single line where target and message hold no line break.
pub proof fn lemma_truncate_transient_then_log(
    content: Seq<char>,
    level: Level,
    millis: nat,
    target: Seq<char>,
    message: Seq<char>,
)
    ensures
        ({
            let plan = plan_of(Setup::TruncateTransient);
            content_after_step(
                content_after_setup(plan, content),
                step_of(plan.access, true, level, millis, target, message),
                true,
            ) == record_of(level, millis, target, message)
        }),
        no_break(target) && no_break(message) ==> line_breaks(record_of(level, millis, target, message)) == 1,
{
    assert(Seq::<char>::empty() + record_of(level, millis, target, message) =~= record_of(level, millis, target, message));
    if no_break(target) && no_break(message) {
        lemma_record_is_one_line(level, millis, target, message);
    }
}

/// Setting up with `append_transient` and logging one enabled record keeps
/// what the file held and adds the record's line after it.
pub proof fn lemma_append_transient_then_log(
    content: Seq<char>,
    level: Level,
    millis: nat,
    target: Seq<char>,
    message: Seq<char>,
)
    ensures
        ({
            let plan = plan_of(Setup::AppendTransient);
            content_after_step(
                content_after_setup(plan, content),
                step_of(plan.access, true, level, millis, target, message),
                true,
            ) == content + record_of(level, millis, target, message)
        }),
{
}

/// With transient access, a record whose reopening fails leaves the file as
/// it was, and a later record whose reopening succeeds is still appended.
pub proof fn lemma_failed_open_then_success(
    content: Seq<char>,
    first: Entry,
    second: Entry,
)
    ensures
        ({
            let after_failure = content_after_step(
                content,
                step_of(Access::Transient, true, first.0, first.1, first.2, first.3),
                false,
            );
            &&& after_failure == content
            &&& content_after_step(
                after_failure,
                step_of(Access::Transient, true, second.0, second.1, second.2, second.3),
                true,
            ) == content + record_of(second.0, second.1, second.2, second.3)
        }),
{
}

} // verus!
