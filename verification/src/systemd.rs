//! Reading the state of the transient systemd unit that activates a NixOS
//! configuration, and deciding what that state means for the deployment.

use vstd::prelude::*;

use crate::error::DeployError;
use crate::text::{
    chars_of, has_prefix, i32_to_text, int_decimal, owned, parse_i32, parse_int, starts_with,
    trim, trimmed,
};

verus! {

/// `String::from_utf8_lossy`: the text of `bytes`, with each invalid UTF-8
/// sequence replaced by U+FFFD.
pub uninterp spec fn utf8_lossy(bytes: Seq<u8>) -> Seq<char>;

/// Calls `String::from_utf8_lossy`. The contract names its result
/// `utf8_lossy` of the bytes and states the documented case of valid UTF-8,
/// which decodes unchanged; how invalid sequences are replaced is not stated.
#[verifier::external_body]
fn decode_lossy(bytes: &[u8]) -> (res: String)
    ensures
        res@ == utf8_lossy(bytes@),
        vstd::utf8::valid_utf8(bytes@) ==> res@ == vstd::utf8::decode_utf8(bytes@),
{
    String::from_utf8_lossy(bytes).into_owned()
}

/// The pieces of `s` between line feeds (`str::split('\n')`).
pub open spec fn split_lines(s: Seq<char>) -> Seq<Seq<char>>
    decreases s.len(),
{
    if s.len() == 0 {
        seq![Seq::empty()]
    } else if s.last() == '\n' {
        split_lines(s.drop_last()).push(Seq::empty())
    } else {
        let p = split_lines(s.drop_last());
        p.update(p.len() - 1, p.last().push(s.last()))
    }
}

/// The unit state read so far, updated with one line of `systemctl show`:
/// a `SubState=` line sets the sub-state, an `ExecMainStatus=` line sets the
/// exit status (to none when it is not an `i32`). Values are trimmed.
pub open spec fn apply_state_line(state: (Option<Seq<char>>, Option<i32>), line: Seq<char>) -> (
    Option<Seq<char>>,
    Option<i32>,
) {
    if starts_with(line, "SubState="@) {
        (Some(trimmed(line.skip("SubState="@.len() as int))), state.1)
    } else if starts_with(line, "ExecMainStatus="@) {
        (state.0, parse_i32(trimmed(line.skip("ExecMainStatus="@.len() as int))))
    } else {
        state
    }
}

/// The sub-state and exit status that a list of lines reports; later lines
/// win.
pub open spec fn systemd_state(lines: Seq<Seq<char>>) -> (Option<Seq<char>>, Option<i32>)
    decreases lines.len(),
{
    if lines.len() == 0 {
        (None, None)
    } else {
        apply_state_line(systemd_state(lines.drop_last()), lines.last())
    }
}

proof fn lemma_split_lines_nonempty(s: Seq<char>)
    ensures
        split_lines(s).len() >= 1,
    decreases s.len(),
{
    if s.len() > 0 {
        lemma_split_lines_nonempty(s.drop_last());
    }
}

/// The effect of one line on the state.
fn apply_line(
    line: &str,
    sub_state: Option<String>,
    exit_status: Option<i32>,
) -> (res: (Option<String>, Option<i32>))
    ensures
        (crate::deploy::opt_view(res.0), res.1) == apply_state_line(
            (crate::deploy::opt_view(sub_state), exit_status),
            line@,
        ),
{
    let chars = chars_of(line);
    let sub_prefix = chars_of("SubState=");
    let status_prefix = chars_of("ExecMainStatus=");
    if has_prefix(&chars, &sub_prefix) {
        let value = line.substring_char(sub_prefix.len(), chars.len());
        assert(value@ =~= line@.skip("SubState="@.len() as int));
        (Some(trim(value)), exit_status)
    } else if has_prefix(&chars, &status_prefix) {
        let value = line.substring_char(status_prefix.len(), chars.len());
        assert(value@ =~= line@.skip("ExecMainStatus="@.len() as int));
        let t = trim(value);
        (sub_state, parse_int(t.as_str()))
    } else {
        (sub_state, exit_status)
    }
}

/// Reads `SubState` and `ExecMainStatus` from the output of
/// `systemctl show <unit>`.
pub fn parse_systemd_state(output: &[u8]) -> (res: (Option<String>, Option<i32>))
    ensures
        (crate::deploy::opt_view(res.0), res.1) == systemd_state(
            split_lines(utf8_lossy(output@)),
        ),
{
    let text = decode_lossy(output);
    let s = text.as_str();
    let chars = chars_of(s);
    let ghost t = s@;
    let mut sub_state: Option<String> = None;
    let mut exit_status: Option<i32> = None;
    let mut line_start: usize = 0;
    let mut i: usize = 0;
    assert(t.take(0) =~= Seq::<char>::empty());
    assert(split_lines(t.take(0)).drop_last() =~= Seq::<Seq<char>>::empty());
    while i < chars.len()
        invariant
            chars@ == t,
            s@ == t,
            line_start <= i <= chars.len(),
            split_lines(t.take(i as int)).len() >= 1,
            split_lines(t.take(i as int)).last() == t.subrange(line_start as int, i as int),
            (crate::deploy::opt_view(sub_state), exit_status) == systemd_state(
                split_lines(t.take(i as int)).drop_last(),
            ),
        decreases chars.len() - i,
    {
        let ghost prev = split_lines(t.take(i as int));
        let ghost next_take = t.take(i + 1);
        assert(next_take.drop_last() =~= t.take(i as int));
        assert(next_take.last() == chars@[i as int]);
        if chars[i] == '\n' {
            let line = s.substring_char(line_start, i);
            let (a, b) = apply_line(line, sub_state, exit_status);
            sub_state = a;
            exit_status = b;
            proof {
                let next = split_lines(next_take);
                assert(next == prev.push(Seq::empty()));
                assert(next.drop_last() =~= prev);
                assert(prev =~= prev.drop_last().push(prev.last()));
                assert(t.subrange(i + 1, i + 1) =~= Seq::<char>::empty());
            }
            line_start = i + 1;
        } else {
            proof {
                let next = split_lines(next_take);
                assert(next == prev.update(prev.len() - 1, prev.last().push(chars@[i as int])));
                assert(next.drop_last() =~= prev.drop_last());
                assert(t.subrange(line_start as int, i + 1) =~= t.subrange(
                    line_start as int,
                    i as int,
                ).push(chars@[i as int]));
            }
        }
        i = i + 1;
    }
    assert(t.take(i as int) =~= t);
    let line = s.substring_char(line_start, i);
    let res = apply_line(line, sub_state, exit_status);
    proof {
        let all = split_lines(t);
        assert(all =~= all.drop_last().push(all.last()));
    }
    res
}

/// What the unit's state means for the activation.
#[derive(Debug)]
pub enum PollOutcome {
    /// The unit exited with status 0: the activation succeeded.
    Succeeded,
    /// The activation failed, for the reason given.
    Failed(DeployError),
    /// Not finished yet: ask again later.
    Pending,
}

/// The message for an activation whose unit exited with a non-zero status.
pub open spec fn exited_message(target: Seq<char>, status: i32) -> Seq<char> {
    "activation on "@ + target + ": switch-to-configuration exited with code "@ + int_decimal(
        status as int,
    )
}

/// The message for an activation whose unit failed.
pub open spec fn unit_failed_message(target: Seq<char>, status: Option<i32>) -> Seq<char> {
    "activation on "@ + target + ": unit failed (ExecMainStatus="@ + int_decimal(
        match status {
            Some(s) => s as int,
            None => -1,
        },
    ) + ")"@
}

/// The message for an activation that did not finish in time.
pub open spec fn timed_out_message(target: Seq<char>, unit: Seq<char>) -> Seq<char> {
    "activation on "@ + target + ": timed out waiting for "@ + unit + " unit"@
}

/// What a unit state means for the activation on `target`: `None` while it
/// is still running, `Some(Ok(()))` when it exited with status 0 (a missing
/// status counts as 0), and `Some(Err(message))` when it exited otherwise or
/// failed.
pub open spec fn poll_verdict(
    target: Seq<char>,
    sub_state: Option<Seq<char>>,
    exit_status: Option<i32>,
) -> Option<Result<(), Seq<char>>> {
    let status = match exit_status {
        Some(s) => s,
        None => 0,
    };
    match sub_state {
        Some(s) if s == "exited"@ && status == 0 => Some(Ok(())),
        Some(s) if s == "exited"@ => Some(Err(exited_message(target, status))),
        Some(s) if s == "failed"@ => Some(Err(unit_failed_message(target, exit_status))),
        _ => None,
    }
}

/// Decides from the unit's sub-state and exit status whether the activation
/// on `target` succeeded, failed, or is still running.
pub fn poll_outcome(target: &str, sub_state: &Option<String>, exit_status: Option<i32>) -> (res:
    PollOutcome)
    ensures
        match poll_verdict(target@, crate::deploy::opt_view(*sub_state), exit_status) {
            None => res is Pending,
            Some(Ok(())) => res is Succeeded,
            Some(Err(m)) => res matches PollOutcome::Failed(e) && e.message@ == m
                && e.context@.len() == 0,
        },
        (*sub_state matches Some(s) && s@ == "failed"@) ==> res is Failed,
        res is Succeeded <==> (*sub_state matches Some(s) && s@ == "exited"@ && (exit_status is None
            || exit_status == Some(0i32))),
{
    proof {
        crate::laws::law_failed_unit_never_succeeds(
            target@,
            crate::deploy::opt_view(*sub_state),
            exit_status,
        );
    }
    let status: i32 = match exit_status {
        Some(s) => s,
        None => 0,
    };
    match sub_state {
        Some(s) => {
            if crate::text::same_text(s.as_str(), "exited") {
                if status == 0 {
                    PollOutcome::Succeeded
                } else {
                    let mut message = owned("activation on ");
                    message.append(target);
                    message.append(": switch-to-configuration exited with code ");
                    let code = i32_to_text(status);
                    message.append(code.as_str());
                    PollOutcome::Failed(DeployError::new(message))
                }
            } else if crate::text::same_text(s.as_str(), "failed") {
                let shown: i32 = match exit_status {
                    Some(v) => v,
                    None => -1,
                };
                let mut message = owned("activation on ");
                message.append(target);
                message.append(": unit failed (ExecMainStatus=");
                let code = i32_to_text(shown);
                message.append(code.as_str());
                message.append(")");
                PollOutcome::Failed(DeployError::new(message))
            } else {
                PollOutcome::Pending
            }
        },
        None => PollOutcome::Pending,
    }
}

/// The error for an activation that did not finish in time.
pub fn timed_out_error(target: &str, unit: &str) -> (res: DeployError)
    ensures
        res.message@ == timed_out_message(target@, unit@),
        res.context@.len() == 0,
{
    let mut message = owned("activation on ");
    message.append(target);
    message.append(": timed out waiting for ");
    message.append(unit);
    message.append(" unit");
    DeployError::new(message)
}

/// The longest wait between two polls of the unit, in seconds.
pub const MAX_POLL_DELAY_SECONDS: u64 = 60;

/// The wait before the first poll of the unit, in seconds.
pub const FIRST_POLL_DELAY_SECONDS: u64 = 5;

/// How long activation may take before the deployment gives up, in seconds.
pub const ACTIVATION_TIMEOUT_SECONDS: u64 = 300;

/// The wait after `delay`: twice as long, up to a minute.
pub fn next_poll_delay(delay: u64) -> (res: u64)
    requires
        delay <= MAX_POLL_DELAY_SECONDS,
    ensures
        res == if 2 * delay < MAX_POLL_DELAY_SECONDS {
            2 * delay
        } else {
            MAX_POLL_DELAY_SECONDS as int
        },
{
    let doubled = delay * 2;
    if doubled < MAX_POLL_DELAY_SECONDS {
        doubled
    } else {
        MAX_POLL_DELAY_SECONDS
    }
}

} // verus!
