//! What holds of every configuration and every run, proved from the
//! definitions that the contracts of [`Dd`](crate::dd::Dd) are stated in.
use crate::dd::{key_value, DdView};
use crate::error::DdErrorView;
use crate::process::{text_of, OutcomeView, Phase, StepView};
use crate::text::{delimiters, lemma_split_in_two, lemma_split_len, split, tokens, Delimiter};
use crate::version::{component, older, version_of};
use vstd::prelude::*;

verus! {

/// Without an input no copy is launched: whatever comes of the version query,
/// the run ends there.
pub proof fn law_no_input_no_copy(dd: DdView, outcome: OutcomeView)
    requires
        dd.input is None,
    ensures
        dd.step(Phase::Check, outcome) matches StepView::Done(Err(_)),
{
}

/// Without an input a run whose binary passes the check fails for want of an
/// input.
pub proof fn law_no_input_fails(dd: DdView, outcome: OutcomeView)
    requires
        dd.input is None,
        dd.check(outcome) is Ok,
    ensures
        dd.step(Phase::Check, outcome) == StepView::Done(Err(DdErrorView::NoInput)),
{
}

/// A copy is launched only behind a check that passed, and then with the
/// binary of the configuration and the arguments that it asks for.
pub proof fn law_check_guards_copy(dd: DdView, phase: Phase, outcome: OutcomeView)
    requires
        dd.step(phase, outcome) is Run,
    ensures
        phase == Phase::Check,
        dd.check(outcome) is Ok,
        dd.arguments() is Some,
        dd.step(phase, outcome)->phase == Phase::Copy,
        dd.step(phase, outcome)->invocation.program == dd.binary,
        dd.step(phase, outcome)->invocation.args == dd.arguments()->0,
{
}

/// A binary that cannot be started is missing, whatever the configuration and
/// whatever reason the system gives.
pub proof fn law_unstartable_binary_is_missing(dd: DdView, reason: Seq<char>)
    ensures
        dd.check(OutcomeView::NotStarted(reason)) == Err::<(), DdErrorView>(DdErrorView::Missing),
        dd.step(Phase::Check, OutcomeView::NotStarted(reason)) == StepView::Done(
            Err(DdErrorView::Missing),
        ),
{
}

/// A binary that reports the version `version` passes the check exactly when
/// no minimum is asked for, or one that `version` is not older than.
pub proof fn law_minimum_version(
    dd: DdView,
    stdout: Seq<u8>,
    stderr: Seq<u8>,
    report: Seq<char>,
    version: (u16, u16),
)
    requires
        text_of(stdout) == Some(report),
        version_of(report) == Some(version),
    ensures
        dd.check(OutcomeView::Exited { success: true, stdout, stderr }) == if dd.min_version
            is Some && older(version, dd.min_version->0) {
            Err::<(), DdErrorView>(DdErrorView::OldVersion)
        } else {
            Ok(())
        },
{
}

/// Versions are in a strict total order: none is older than itself, of two
/// different ones exactly one is the older, and what is older than the older
/// of two is older than the other.
pub proof fn law_older_is_a_strict_total_order(a: (u16, u16), b: (u16, u16), c: (u16, u16))
    ensures
        !older(a, a),
        a != b ==> (older(a, b) <==> !older(b, a)),
        older(a, b) && older(b, c) ==> older(a, c),
{
}

/// The check fails for the form of the report exactly when the binary exited
/// successfully and wrote valid UTF-8 that has fewer than three tokens, or a
/// third token that `.` does not divide in exactly two parts.
pub proof fn law_malformed_report(dd: DdView, outcome: OutcomeView)
    ensures
        dd.check(outcome) == Err::<(), DdErrorView>(DdErrorView::InvalidOutput) <==> {
            &&& outcome matches OutcomeView::Exited { success, stdout, stderr }
            &&& success
            &&& text_of(stdout) matches Some(report)
            &&& (tokens(report).len() < 3 || split(tokens(report)[2], Delimiter::Char('.')).len()
                != 2)
        },
{
}

/// The arguments of a copy stand in a fixed order: the input first, then the
/// output if there is one, then the options as they were given.
pub proof fn law_arguments_in_order(dd: DdView)
    requires
        dd.input is Some,
    ensures
        dd.arguments() is Some,
        dd.arguments()->0[0] == key_value("if"@, dd.input->0),
        dd.output is Some ==> dd.arguments()->0[1] == key_value("of"@, dd.output->0)
            && dd.arguments()->0.skip(2) == dd.options,
        dd.output is None ==> dd.arguments()->0.skip(1) == dd.options,
{
}

/// A report gives a version exactly when it has a third token and that token
/// holds exactly one `.`.
pub proof fn law_version_form(report: Seq<char>)
    ensures
        version_of(report) is Some <==> tokens(report).len() >= 3 && delimiters(
            tokens(report)[2],
            Delimiter::Char('.'),
        ) == 1,
{
    if tokens(report).len() >= 3 {
        lemma_split_len(tokens(report)[2], Delimiter::Char('.'));
    }
}

/// The version that a report gives is read from its third token: the major
/// number from what stands before the `.`, the minor number from what stands
/// after it, and zero for either where no number stands there.
pub proof fn law_version_numbers(report: Seq<char>, dot: int)
    requires
        tokens(report).len() >= 3,
        0 <= dot < tokens(report)[2].len(),
        forall|j: int|
            0 <= j < tokens(report)[2].len() ==> (#[trigger] tokens(report)[2][j] == '.' <==> j
                == dot),
    ensures
        version_of(report) == Some(
            (
                component(tokens(report)[2].take(dot)),
                component(tokens(report)[2].skip(dot + 1)),
            ),
        ),
{
    lemma_split_in_two(tokens(report)[2], Delimiter::Char('.'), dot);
}

/// Of two settings of the input, the output or the minimum version, the later
/// one stands, as if the earlier had never been made.
pub proof fn law_later_setting_replaces(
    dd: DdView,
    first: Seq<char>,
    second: Seq<char>,
    first_version: (u16, u16),
    second_version: (u16, u16),
)
    ensures
        dd.with_input(first).with_input(second) == dd.with_input(second),
        dd.with_output(first).with_output(second) == dd.with_output(second),
        dd.with_min_version(first_version).with_min_version(second_version) == dd.with_min_version(
            second_version,
        ),
{
}

/// Options accumulate: each one given comes after all that were given before,
/// so two of them, be it under the same key, both stand among the arguments of
/// the copy, last and in the order given.
pub proof fn law_options_accumulate(
    dd: DdView,
    first_key: Seq<char>,
    first: Seq<char>,
    second_key: Seq<char>,
    second: Seq<char>,
)
    ensures
        dd.with_option(first_key, first).with_option(second_key, second).options
            == dd.options.push(key_value(first_key, first)).push(key_value(second_key, second)),
        dd.input is Some ==> dd.with_option(first_key, first).with_option(
            second_key,
            second,
        ).arguments() == Some(
            dd.arguments()->0.push(key_value(first_key, first)).push(
                key_value(second_key, second),
            ),
        ),
{
}

} // verus!
