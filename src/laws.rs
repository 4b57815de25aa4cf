//! Properties of the protocol that hold for all inputs.
use vstd::prelude::*;
use crate::backend::tool_args_of;
use crate::command::{
    action_of, key_name_of, or_zero, text_opt, ActionModel, ClientMessage, MouseButton,
};
use crate::decimal::int_decimal;
use crate::http::{content_type_of, line_end, request_target_of, resolved_path, scan_to, white_space};
use crate::response::{ok_model, ResponseModel};
use crate::session::{next_state, step_of, ConnectionState, Frame, StepModel};

verus! {

/// The four command kinds are distinct words.
pub proof fn command_kinds_are_distinct()
    ensures
        "mouse"@ != "click"@,
        "mouse"@ != "scroll"@,
        "mouse"@ != "key"@,
        "click"@ != "scroll"@,
        "click"@ != "key"@,
        "scroll"@ != "key"@,
{
    reveal_strlit("mouse");
    reveal_strlit("click");
    reveal_strlit("scroll");
    reveal_strlit("key");
    assert("mouse"@[0] != "click"@[0]);
    assert("mouse"@[0] != "scroll"@[0]);
    assert("mouse"@[0] != "key"@[0]);
    assert("click"@[0] != "scroll"@[0]);
    assert("click"@[0] != "key"@[0]);
    assert("scroll"@[0] != "key"@[0]);
}

/// A `mouse` command asks for exactly one relative move, by its own offsets,
/// an absent offset counting as zero, and the tool is given those offsets.
pub proof fn mouse_moves_by_its_offsets(m: ClientMessage)
    requires
        m.msg_type@ == "mouse"@,
    ensures
        action_of(m) == Some(ActionModel::MoveRelative { dx: or_zero(m.dx), dy: or_zero(m.dy) }),
        tool_args_of(ActionModel::MoveRelative { dx: or_zero(m.dx), dy: or_zero(m.dy) })
            == seq!["mousemove_relative"@, "--"@, int_decimal(or_zero(m.dx)), int_decimal(or_zero(m.dy))],
{
}

/// A `click` command whose button is not `left`, `middle` or `right` clicks
/// the left button.
pub proof fn unknown_button_clicks_left(m: ClientMessage)
    requires
        m.msg_type@ == "click"@,
        m.button is Some,
        m.button->Some_0@ != "left"@,
        m.button->Some_0@ != "middle"@,
        m.button->Some_0@ != "right"@,
    ensures
        action_of(m) == Some(ActionModel::Click(MouseButton::Left)),
{
    command_kinds_are_distinct();
}

/// The empty button name clicks the left button.
pub proof fn empty_button_clicks_left(m: ClientMessage)
    requires
        m.msg_type@ == "click"@,
        text_opt(m.button) == Some(Seq::<char>::empty()),
    ensures
        action_of(m) == Some(ActionModel::Click(MouseButton::Left)),
{
    command_kinds_are_distinct();
    reveal_strlit("left");
    reveal_strlit("middle");
    reveal_strlit("right");
    assert(m.button->Some_0@.len() == 0);
    assert("left"@.len() == 4);
    assert("middle"@.len() == 6);
    assert("right"@.len() == 5);
    unknown_button_clicks_left(m);
}

/// A `scroll` command scrolls up for a positive vertical offset, down for a
/// negative one, and does nothing for zero or an absent offset.
pub proof fn scroll_follows_sign(m: ClientMessage)
    requires
        m.msg_type@ == "scroll"@,
    ensures
        or_zero(m.dy) > 0 ==> action_of(m) == Some(ActionModel::ScrollUp),
        or_zero(m.dy) < 0 ==> action_of(m) == Some(ActionModel::ScrollDown),
        or_zero(m.dy) == 0 ==> action_of(m) is None,
{
    command_kinds_are_distinct();
}

/// Two `scroll` commands with the same vertical offset do the same, whatever
/// their other fields hold.
pub proof fn scroll_ignores_other_fields(m1: ClientMessage, m2: ClientMessage)
    requires
        m1.msg_type@ == "scroll"@,
        m2.msg_type@ == "scroll"@,
        m1.dy == m2.dy,
    ensures
        action_of(m1) == action_of(m2),
{
    command_kinds_are_distinct();
}

/// No named key is a single character.
pub proof fn named_keys_are_longer(k: Seq<char>)
    requires
        k.len() == 1,
    ensures
        key_name_of(k) is None,
{
    reveal_strlit("space");
    reveal_strlit("enter");
    reveal_strlit("escape");
    reveal_strlit("tab");
    reveal_strlit("backspace");
    reveal_strlit("delete");
    reveal_strlit("up");
    reveal_strlit("down");
    reveal_strlit("left");
    reveal_strlit("right");
    reveal_strlit("ctrl");
    reveal_strlit("alt");
    reveal_strlit("shift");
}

/// A `key` command whose key is a single character, any character, types
/// that character literally.
pub proof fn single_character_is_typed(m: ClientMessage)
    requires
        m.msg_type@ == "key"@,
        m.key is Some,
        m.key->Some_0@.len() == 1,
    ensures
        action_of(m) == Some(ActionModel::TypeText(m.key->Some_0@)),
        tool_args_of(ActionModel::TypeText(m.key->Some_0@)) == seq!["type"@, m.key->Some_0@],
{
    command_kinds_are_distinct();
    named_keys_are_longer(m.key->Some_0@);
}

/// A frame that does not decode sends nothing and leaves the connection
/// open.
pub proof fn undecodable_frame_is_ignored()
    ensures
        step_of(ConnectionState::Open, Frame::Undecodable) == StepModel::Ignore,
        next_state(ConnectionState::Open, Frame::Undecodable) == ConnectionState::Open,
{
}

/// The steps that a connection takes for a run of frames, in order.
pub open spec fn transcript(s: ConnectionState, frames: Seq<Frame>) -> Seq<StepModel>
    decreases frames.len(),
{
    if frames.len() == 0 {
        Seq::empty()
    } else {
        seq![step_of(s, frames[0])] + transcript(next_state(s, frames[0]), frames.drop_first())
    }
}

/// The frames that one of two connections receives in an interleaving,
/// where each frame is tagged with the connection it arrived on.
pub open spec fn frames_on(t: Seq<(bool, Frame)>, side: bool) -> Seq<Frame>
    decreases t.len(),
{
    if t.len() == 0 {
        Seq::empty()
    } else if t[0].0 == side {
        seq![t[0].1] + frames_on(t.drop_first(), side)
    } else {
        frames_on(t.drop_first(), side)
    }
}

/// The steps that each of two connections takes when their frames arrive
/// interleaved.
pub open spec fn run_pair(a: ConnectionState, b: ConnectionState, t: Seq<(bool, Frame)>) -> (
    Seq<StepModel>,
    Seq<StepModel>,
)
    decreases t.len(),
{
    if t.len() == 0 {
        (Seq::empty(), Seq::empty())
    } else if t[0].0 {
        let rest = run_pair(next_state(a, t[0].1), b, t.drop_first());
        (seq![step_of(a, t[0].1)] + rest.0, rest.1)
    } else {
        let rest = run_pair(a, next_state(b, t[0].1), t.drop_first());
        (rest.0, seq![step_of(b, t[0].1)] + rest.1)
    }
}

/// Connections do not affect each other: however the frames of two
/// connections interleave, each takes the steps, in order, that it takes on
/// its own frames alone.
pub proof fn connections_are_independent(
    a: ConnectionState,
    b: ConnectionState,
    t: Seq<(bool, Frame)>,
)
    ensures
        run_pair(a, b, t).0 == transcript(a, frames_on(t, true)),
        run_pair(a, b, t).1 == transcript(b, frames_on(t, false)),
    decreases t.len(),
{
    if t.len() > 0 {
        if t[0].0 {
            connections_are_independent(next_state(a, t[0].1), b, t.drop_first());
            let fa = frames_on(t, true);
            assert(fa[0] == t[0].1);
            assert(fa.drop_first() =~= frames_on(t.drop_first(), true));
        } else {
            connections_are_independent(a, next_state(b, t[0].1), t.drop_first());
            let fb = frames_on(t, false);
            assert(fb[0] == t[0].1);
            assert(fb.drop_first() =~= frames_on(t.drop_first(), false));
        }
    }
}

/// An open connection answers each command of an unbroken run of `mouse`
/// commands with one move, in the order the commands came.
pub proof fn mouse_run_moves_in_order(frames: Seq<Frame>)
    requires
        forall|i: int|
            0 <= i < frames.len() ==> (#[trigger] frames[i] matches Frame::Command(m)
                && m.msg_type@ == "mouse"@),
    ensures
        transcript(ConnectionState::Open, frames).len() == frames.len(),
        forall|i: int|
            0 <= i < frames.len() ==> (#[trigger] frames[i] matches Frame::Command(m)
                && transcript(ConnectionState::Open, frames)[i] == StepModel::Perform(
                ActionModel::MoveRelative { dx: or_zero(m.dx), dy: or_zero(m.dy) },
            )),
    decreases frames.len(),
{
    if frames.len() > 0 {
        let rest = frames.drop_first();
        assert forall|i: int| 0 <= i < rest.len() implies (#[trigger] rest[i] matches Frame::Command(
            m,
        ) && m.msg_type@ == "mouse"@) by {
            assert(rest[i] == frames[i + 1]);
        }
        mouse_run_moves_in_order(rest);
        let tr = transcript(ConnectionState::Open, frames);
        assert forall|i: int| 0 <= i < frames.len() implies (#[trigger] frames[i] matches Frame::Command(
            m,
        ) && tr[i] == StepModel::Perform(
            ActionModel::MoveRelative { dx: or_zero(m.dx), dy: or_zero(m.dy) },
        )) by {
            if i > 0 {
                assert(frames[i] == rest[i - 1]);
            }
        }
    }
}

/// The responses that a connection sends for its steps when every action
/// that it performs succeeds: one for each performed action or direct reply,
/// in order, up to the end of the connection.
pub open spec fn sent_when_all_succeed(steps: Seq<StepModel>) -> Seq<ResponseModel>
    decreases steps.len(),
{
    if steps.len() == 0 {
        Seq::empty()
    } else {
        match steps[0] {
            StepModel::Perform(_) => seq![ok_model()] + sent_when_all_succeed(steps.drop_first()),
            StepModel::Reply(r) => seq![r] + sent_when_all_succeed(steps.drop_first()),
            StepModel::Ignore => sent_when_all_succeed(steps.drop_first()),
            StepModel::Stop => Seq::empty(),
        }
    }
}

/// Whether every frame is a decoded command.
pub open spec fn all_commands(frames: Seq<Frame>) -> bool {
    forall|i: int| 0 <= i < frames.len() ==> #[trigger] frames[i] is Command
}

/// An open connection that receives only decoded commands, each of whose
/// actions succeeds, sends exactly one `ok` per command, in order.
pub proof fn one_ok_per_command(frames: Seq<Frame>)
    requires
        all_commands(frames),
    ensures
        sent_when_all_succeed(transcript(ConnectionState::Open, frames)) == Seq::new(
            frames.len(),
            |i: int| ok_model(),
        ),
    decreases frames.len(),
{
    if frames.len() > 0 {
        let rest = frames.drop_first();
        assert forall|i: int| 0 <= i < rest.len() implies #[trigger] rest[i] is Command by {
            assert(rest[i] == frames[i + 1]);
        }
        one_ok_per_command(rest);
        assert(frames[0] is Command);
        let tr = transcript(ConnectionState::Open, frames);
        let tail = transcript(ConnectionState::Open, rest);
        assert(next_state(ConnectionState::Open, frames[0]) == ConnectionState::Open);
        assert(tr == seq![step_of(ConnectionState::Open, frames[0])] + tail);
        assert(tr[0] == step_of(ConnectionState::Open, frames[0]));
        assert(tr.drop_first() =~= tail);
        assert(sent_when_all_succeed(tr) == seq![ok_model()] + sent_when_all_succeed(tail));
        assert(sent_when_all_succeed(transcript(ConnectionState::Open, frames)) =~= Seq::new(
            frames.len(),
            |i: int| ok_model(),
        ));
    }
}

/// The responses that a connection sends for its steps, where `outcomes[i]`
/// acknowledges the action performed for the `i`-th frame, if one was.
pub open spec fn sent_with(steps: Seq<StepModel>, outcomes: Seq<ResponseModel>) -> Seq<
    ResponseModel,
>
    decreases steps.len(),
{
    if steps.len() == 0 || outcomes.len() == 0 {
        Seq::empty()
    } else {
        match steps[0] {
            StepModel::Perform(_) => seq![outcomes[0]] + sent_with(
                steps.drop_first(),
                outcomes.drop_first(),
            ),
            StepModel::Reply(r) => seq![r] + sent_with(steps.drop_first(), outcomes.drop_first()),
            StepModel::Ignore => sent_with(steps.drop_first(), outcomes.drop_first()),
            StepModel::Stop => Seq::empty(),
        }
    }
}

/// The response to a decoded command whose action, if it asks for one,
/// ended as `outcome` acknowledges.
pub open spec fn response_to(f: Frame, outcome: ResponseModel) -> ResponseModel {
    match f {
        Frame::Command(m) => if action_of(m) is Some {
            outcome
        } else {
            ok_model()
        },
        _ => ok_model(),
    }
}

/// An open connection that receives only decoded commands answers each of
/// them exactly once and in order: the `i`-th response is the acknowledgment
/// of the `i`-th command's action, or `ok` where it asks for none.
pub proof fn responses_follow_commands(frames: Seq<Frame>, outcomes: Seq<ResponseModel>)
    requires
        all_commands(frames),
        outcomes.len() == frames.len(),
    ensures
        sent_with(transcript(ConnectionState::Open, frames), outcomes) == Seq::new(
            frames.len(),
            |i: int| response_to(frames[i], outcomes[i]),
        ),
    decreases frames.len(),
{
    if frames.len() > 0 {
        let rest = frames.drop_first();
        assert forall|i: int| 0 <= i < rest.len() implies #[trigger] rest[i] is Command by {
            assert(rest[i] == frames[i + 1]);
        }
        responses_follow_commands(rest, outcomes.drop_first());
        assert(frames[0] is Command);
        let tr = transcript(ConnectionState::Open, frames);
        let tail = transcript(ConnectionState::Open, rest);
        assert(next_state(ConnectionState::Open, frames[0]) == ConnectionState::Open);
        assert(tr == seq![step_of(ConnectionState::Open, frames[0])] + tail);
        assert(tr[0] == step_of(ConnectionState::Open, frames[0]));
        assert(tr.drop_first() =~= tail);
        assert(sent_with(tr, outcomes) == seq![response_to(frames[0], outcomes[0])] + sent_with(
            tail,
            outcomes.drop_first(),
        ));
        assert(sent_with(tr, outcomes) =~= Seq::new(
            frames.len(),
            |i: int| response_to(frames[i], outcomes[i]),
        ));
    }
}

proof fn frames_on_keeps_commands(t: Seq<(bool, Frame)>, side: bool)
    requires
        forall|i: int| 0 <= i < t.len() ==> (#[trigger] t[i]).1 is Command,
    ensures
        all_commands(frames_on(t, side)),
    decreases t.len(),
{
    if t.len() > 0 {
        let rest = t.drop_first();
        assert forall|i: int| 0 <= i < rest.len() implies (#[trigger] rest[i]).1 is Command by {
            assert(rest[i] == t[i + 1]);
        }
        frames_on_keeps_commands(rest, side);
        assert(t[0].1 is Command);
        let f = frames_on(t, side);
        assert forall|i: int| 0 <= i < f.len() implies #[trigger] f[i] is Command by {
            if t[0].0 == side && i > 0 {
                assert(f[i] == frames_on(rest, side)[i - 1]);
            }
        }
    }
}

/// Two open connections whose decoded commands arrive interleaved in any
/// way, each of whose actions succeeds, each send exactly one `ok` per
/// command that arrived on them, in order, and no more.
pub proof fn interleaved_connections_ok_each_command(t: Seq<(bool, Frame)>)
    requires
        forall|i: int| 0 <= i < t.len() ==> (#[trigger] t[i]).1 is Command,
    ensures
        sent_when_all_succeed(run_pair(ConnectionState::Open, ConnectionState::Open, t).0)
            == Seq::new(frames_on(t, true).len(), |i: int| ok_model()),
        sent_when_all_succeed(run_pair(ConnectionState::Open, ConnectionState::Open, t).1)
            == Seq::new(frames_on(t, false).len(), |i: int| ok_model()),
{
    connections_are_independent(ConnectionState::Open, ConnectionState::Open, t);
    frames_on_keeps_commands(t, true);
    frames_on_keeps_commands(t, false);
    one_ok_per_command(frames_on(t, true));
    one_ok_per_command(frames_on(t, false));
}

proof fn scan_over_run(s: Seq<char>, i: int, j: int, space: bool)
    requires
        0 <= i <= j <= s.len(),
        forall|k: int| i <= k < j ==> white_space(#[trigger] s[k]) != space,
        j == s.len() || white_space(s[j]) == space,
    ensures
        scan_to(s, i, space) == j,
    decreases j - i,
{
    if i < j {
        scan_over_run(s, i + 1, j, space);
    }
}

proof fn line_end_over_run(s: Seq<char>, i: int, j: int)
    requires
        0 <= i <= j < s.len(),
        forall|k: int| i <= k < j ==> #[trigger] s[k] != '\n',
        s[j] == '\n',
    ensures
        line_end(s, i) == j,
    decreases j - i,
{
    if i < j {
        line_end_over_run(s, i + 1, j);
    }
}

/// The request line of an HTTP/1.1 request.
pub open spec fn get_request(path: Seq<char>, rest: Seq<char>) -> Seq<char> {
    seq!['G', 'E', 'T', ' '] + path + seq![' ', 'H', 'T', 'T', 'P', '/', '1', '.', '1', '\r', '\n']
        + rest
}

/// A `GET` request for a path free of white space asks for that path,
/// whatever follows its request line.
pub proof fn get_request_asks_for_its_path(path: Seq<char>, rest: Seq<char>)
    requires
        path.len() > 0,
        forall|i: int| 0 <= i < path.len() ==> !white_space(#[trigger] path[i]),
    ensures
        request_target_of(get_request(path, rest)) == Some(path),
{
    let s = get_request(path, rest);
    let n: int = path.len() as int + 14;
    assert forall|k: int| 0 <= k < n implies #[trigger] s[k] != '\n' by {
        if 4 <= k < 4 + path.len() {
            assert(s[k] == path[k - 4]);
        }
    }
    assert(s[n] == '\n') by {
        assert(s == (seq!['G', 'E', 'T', ' '] + path) + seq![' ', 'H', 'T', 'T', 'P', '/', '1', '.', '1', '\r', '\n'] + rest);
    }
    line_end_over_run(s, 0, n);
    let l = s.subrange(0, n - 1);
    assert(s[n - 1] == '\r');
    let p4: int = 4 + path.len() as int;
    assert forall|k: int| 0 <= k < 3 implies !white_space(#[trigger] l[k]) by {}
    scan_over_run(l, 0, 0, false);
    scan_over_run(l, 0, 3, true);
    scan_over_run(l, 3, 4, false);
    assert forall|k: int| 4 <= k < p4 implies !white_space(#[trigger] l[k]) by {
        assert(l[k] == path[k - 4]);
    }
    scan_over_run(l, 4, p4, true);
    reveal_strlit("GET");
    assert(l.subrange(0, 3) =~= "GET"@);
    assert(l.subrange(4, p4) =~= path);
}

/// Request paths other than `/` are appended to the root unchanged, so
/// segments such as `..` reach outside it.
pub proof fn paths_are_taken_verbatim(root: Seq<char>, path: Seq<char>)
    requires
        path != "/"@,
    ensures
        resolved_path(root, path) == root + path,
{
}

/// A `GET` request for a path other than `/` names that path appended to
/// the root unchanged, `..` segments included.
pub proof fn get_request_is_taken_verbatim(root: Seq<char>, path: Seq<char>, rest: Seq<char>)
    requires
        path.len() > 0,
        path != "/"@,
        forall|i: int| 0 <= i < path.len() ==> !white_space(#[trigger] path[i]),
    ensures
        request_target_of(get_request(path, rest)) == Some(path),
        resolved_path(root, path) == root + path,
{
    get_request_asks_for_its_path(path, rest);
}

/// The path `/` names the root's `index.html`, and an `.html` file is
/// announced as `text/html`.
pub proof fn root_path_serves_index(root: Seq<char>, rest: Seq<char>)
    ensures
        request_target_of(get_request("/"@, rest)) == Some("/"@),
        resolved_path(root, "/"@) == root + "/index.html"@,
        content_type_of(Some("html"@)) == "text/html"@,
{
    reveal_strlit("/");
    assert(!white_space('/'));
    get_request_asks_for_its_path("/"@, rest);
}

} // verus!
