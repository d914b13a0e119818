//! The control commands of the controlled four-view preview: parsing, the
//! view-state transitions they ask for, and the responses sent back.

use vstd::prelude::*;
use crate::numbers::{parse_unsigned, parse_unsigned_chars};
use crate::args::{CommandSourceView, FourViewControlCommandSource};
use crate::preview_loops::FrameRenderTally;
use crate::text::{chars_eq, chars_of, decimal, is_blank, optional_decimal, opt_usize, owned,
    push_chars, push_decimal, push_optional_u128, push_str, sanitize_summary_value, sanitized, trim,
    trim_chars, views_of, words, words_of, law_words_ignore_surrounding_white_space};

verus! {

/// A control command of the controlled preview.
#[derive(Debug, Clone, Copy, PartialEq, Eq, Structural)]
pub enum SwitcherFourViewControlledPreviewCommand {
    /// Show the four-slot quad view.
    All,
    /// Show one slot in the full window.
    Focus(usize),
    /// Render the current view again and report it.
    Status,
    /// Stop the loop.
    Quit,
}

/// What the output window currently shows.
#[derive(Debug, Clone, Copy, PartialEq, Eq, Structural)]
pub enum SwitcherFourViewControlledPreviewViewState {
    AllView,
    Focused(usize),
}

/// Why a control command was rejected, with the names that the command
/// summary reports for it.
#[derive(Debug, Clone, PartialEq, Eq)]
pub struct FourViewControlCommandParseError {
    pub command_name: String,
    pub requested_transition: String,
    pub message: String,
}

/// A rejection with its texts as character sequences.
pub struct ParseErrorView {
    pub command_name: Seq<char>,
    pub requested_transition: Seq<char>,
    pub message: Seq<char>,
}

impl View for FourViewControlCommandParseError {
    type V = ParseErrorView;

    open spec fn view(&self) -> ParseErrorView {
        ParseErrorView {
            command_name: self.command_name@,
            requested_transition: self.requested_transition@,
            message: self.message@,
        }
    }
}

/// A rejection built from its three texts.
pub open spec fn rejection(
    command_name: Seq<char>,
    requested_transition: Seq<char>,
    message: Seq<char>,
) -> Result<SwitcherFourViewControlledPreviewCommand, ParseErrorView> {
    Err(ParseErrorView { command_name, requested_transition, message })
}

/// `Focused(<text>)`.
pub open spec fn focused_text(inner: Seq<char>) -> Seq<char> {
    "Focused("@ + inner + ")"@
}

/// The message for a focus index that is not one of 0 to 3.
pub open spec fn focus_index_message() -> Seq<char> {
    "invalid focus index: expected integer 0..3"@
}

/// The outcome of parsing one control command line: its first word names the
/// command; `all`, `status` and `quit` take no argument, and `focus` takes
/// exactly one slot index from 0 to 3.
pub open spec fn control_command(raw: Seq<char>) -> Result<
    SwitcherFourViewControlledPreviewCommand,
    ParseErrorView,
> {
    let trimmed = trim(raw);
    let w = words(trimmed);
    if w.len() == 0 {
        rejection("empty"@, "none"@, "empty command"@)
    } else if w[0] == "all"@ {
        if w.len() > 1 {
            rejection("all"@, "AllView"@, "all does not accept arguments"@)
        } else {
            Ok(SwitcherFourViewControlledPreviewCommand::All)
        }
    } else if w[0] == "status"@ {
        if w.len() > 1 {
            rejection("status"@, "Status"@, "status does not accept arguments"@)
        } else {
            Ok(SwitcherFourViewControlledPreviewCommand::Status)
        }
    } else if w[0] == "quit"@ {
        if w.len() > 1 {
            rejection("quit"@, "Quit"@, "quit does not accept arguments"@)
        } else {
            Ok(SwitcherFourViewControlledPreviewCommand::Quit)
        }
    } else if w[0] == "focus"@ {
        if w.len() == 1 {
            rejection("focus"@, "Focused(?)"@, "missing focus index"@)
        } else if w.len() > 2 {
            rejection("focus"@, focused_text(w[1]), "focus accepts exactly one slot index"@)
        } else {
            match parse_unsigned(w[1], usize::MAX as nat) {
                Err(_) => rejection("focus"@, focused_text(w[1]), focus_index_message()),
                Ok(n) => if n > 3 {
                    rejection("focus"@, focused_text(w[1]), focus_index_message())
                } else {
                    Ok(SwitcherFourViewControlledPreviewCommand::Focus(n as usize))
                },
            }
        }
    } else {
        rejection(sanitized(w[0]), sanitized(trimmed), "unknown command"@)
    }
}

fn parse_error(command_name: String, requested_transition: String, message: &str) -> (r:
    FourViewControlCommandParseError)
    ensures
        r@ == (ParseErrorView {
            command_name: command_name@,
            requested_transition: requested_transition@,
            message: message@,
        }),
{
    FourViewControlCommandParseError { command_name, requested_transition, message: owned(message) }
}

fn focused_string(inner: &[char]) -> (r: String)
    ensures
        r@ == focused_text(inner@),
{
    let mut s = owned("Focused(");
    push_chars(&mut s, inner);
    push_str(&mut s, ")");
    s
}

fn word_is(w: &Vec<char>, literal: &str) -> (r: bool)
    ensures
        r == (w@ == literal@),
{
    let l = chars_of(literal);
    chars_eq(w.as_slice(), l.as_slice())
}

/// Parses one control command line.
pub fn parse_four_view_control_command(raw: &str) -> (r: Result<
    SwitcherFourViewControlledPreviewCommand,
    FourViewControlCommandParseError,
>)
    ensures
        match control_command(raw@) {
            Ok(c) => r == Ok::<
                SwitcherFourViewControlledPreviewCommand,
                FourViewControlCommandParseError,
            >(c),
            Err(e) => r matches Err(x) && x@ == e,
        },
{
    let cs = chars_of(raw);
    let trimmed = trim_chars(cs.as_slice());
    let w = words_of(trimmed.as_slice());
    if w.len() == 0 {
        return Err(parse_error(owned("empty"), owned("none"), "empty command"));
    }
    if word_is(&w[0], "all") {
        if w.len() > 1 {
            return Err(parse_error(owned("all"), owned("AllView"), "all does not accept arguments"));
        }
        return Ok(SwitcherFourViewControlledPreviewCommand::All);
    }
    if word_is(&w[0], "status") {
        if w.len() > 1 {
            return Err(
                parse_error(owned("status"), owned("Status"), "status does not accept arguments"),
            );
        }
        return Ok(SwitcherFourViewControlledPreviewCommand::Status);
    }
    if word_is(&w[0], "quit") {
        if w.len() > 1 {
            return Err(parse_error(owned("quit"), owned("Quit"), "quit does not accept arguments"));
        }
        return Ok(SwitcherFourViewControlledPreviewCommand::Quit);
    }
    if word_is(&w[0], "focus") {
        if w.len() == 1 {
            return Err(parse_error(owned("focus"), owned("Focused(?)"), "missing focus index"));
        }
        if w.len() > 2 {
            return Err(
                parse_error(
                    owned("focus"),
                    focused_string(w[1].as_slice()),
                    "focus accepts exactly one slot index",
                ),
            );
        }
        return match parse_unsigned_chars(w[1].as_slice(), usize::MAX as u64) {
            Err(_) => Err(
                parse_error(
                    owned("focus"),
                    focused_string(w[1].as_slice()),
                    "invalid focus index: expected integer 0..3",
                ),
            ),
            Ok(n) => {
                if n > 3 {
                    Err(
                        parse_error(
                            owned("focus"),
                            focused_string(w[1].as_slice()),
                            "invalid focus index: expected integer 0..3",
                        ),
                    )
                } else {
                    Ok(SwitcherFourViewControlledPreviewCommand::Focus(n as usize))
                }
            },
        };
    }
    let mut name = String::new();
    push_chars(&mut name, w[0].as_slice());
    let mut whole = String::new();
    push_chars(&mut whole, trimmed.as_slice());
    Err(
        parse_error(
            sanitize_summary_value(name.as_str()),
            sanitize_summary_value(whole.as_str()),
            "unknown command",
        ),
    )
}


/// A view state as summaries write it: `AllView` or `Focused(<slot>)`.
pub open spec fn view_state_text(state: SwitcherFourViewControlledPreviewViewState) -> Seq<char> {
    match state {
        SwitcherFourViewControlledPreviewViewState::AllView => "AllView"@,
        SwitcherFourViewControlledPreviewViewState::Focused(i) => focused_text(decimal(i as nat)),
    }
}

/// Appends the summary text of a view state.
pub fn push_view_state(s: &mut String, state: SwitcherFourViewControlledPreviewViewState)
    ensures
        final(s)@ == old(s)@ + view_state_text(state),
{
    match state {
        SwitcherFourViewControlledPreviewViewState::AllView => push_str(s, "AllView"),
        SwitcherFourViewControlledPreviewViewState::Focused(i) => {
            push_str(s, "Focused(");
            push_decimal(s, i as u128);
            push_str(s, ")");
        },
    }
}

/// The summary text of a view state.
pub fn format_four_view_controlled_preview_view_state(
    state: SwitcherFourViewControlledPreviewViewState,
) -> (r: String)
    ensures
        r@ == view_state_text(state),
{
    let mut s = String::new();
    push_view_state(&mut s, state);
    s
}

/// What one control command decides, before any rendering: the names its
/// summary reports, the view state it leaves, whether the view is rendered,
/// and whether the loop stops.
pub struct ControlCommandDecision {
    pub control_command_name: String,
    pub requested_transition: String,
    pub transition_result: String,
    pub next_view_state: SwitcherFourViewControlledPreviewViewState,
    pub renders: bool,
    pub command_parse_error: String,
    pub exit_reason: String,
}

/// A decision with its texts as character sequences.
pub struct ControlCommandDecisionView {
    pub control_command_name: Seq<char>,
    pub requested_transition: Seq<char>,
    pub transition_result: Seq<char>,
    pub next_view_state: SwitcherFourViewControlledPreviewViewState,
    pub renders: bool,
    pub command_parse_error: Seq<char>,
    pub exit_reason: Seq<char>,
}

impl View for ControlCommandDecision {
    type V = ControlCommandDecisionView;

    open spec fn view(&self) -> ControlCommandDecisionView {
        ControlCommandDecisionView {
            control_command_name: self.control_command_name@,
            requested_transition: self.requested_transition@,
            transition_result: self.transition_result@,
            next_view_state: self.next_view_state,
            renders: self.renders,
            command_parse_error: self.command_parse_error@,
            exit_reason: self.exit_reason@,
        }
    }
}

/// The decision for a command line in a view state: `all` and `focus <n>`
/// switch the view (`NoChange` when it already shows that), `status` keeps it
/// and observes, `quit` asks to exit without rendering, and a rejected line
/// keeps the view and reports why.
pub open spec fn control_command_decision(
    raw: Seq<char>,
    current: SwitcherFourViewControlledPreviewViewState,
) -> ControlCommandDecisionView {
    match control_command(raw) {
        Ok(SwitcherFourViewControlledPreviewCommand::All) => ControlCommandDecisionView {
            control_command_name: "all"@,
            requested_transition: "AllView"@,
            transition_result: if current == SwitcherFourViewControlledPreviewViewState::AllView {
                "NoChange"@
            } else {
                "Transitioned"@
            },
            next_view_state: SwitcherFourViewControlledPreviewViewState::AllView,
            renders: true,
            command_parse_error: "none"@,
            exit_reason: "none"@,
        },
        Ok(SwitcherFourViewControlledPreviewCommand::Focus(i)) => ControlCommandDecisionView {
            control_command_name: "focus"@,
            requested_transition: focused_text(decimal(i as nat)),
            transition_result: if current == SwitcherFourViewControlledPreviewViewState::Focused(
                i,
            ) {
                "NoChange"@
            } else {
                "Transitioned"@
            },
            next_view_state: SwitcherFourViewControlledPreviewViewState::Focused(i),
            renders: true,
            command_parse_error: "none"@,
            exit_reason: "none"@,
        },
        Ok(SwitcherFourViewControlledPreviewCommand::Status) => ControlCommandDecisionView {
            control_command_name: "status"@,
            requested_transition: "Status"@,
            transition_result: "Observed"@,
            next_view_state: current,
            renders: true,
            command_parse_error: "none"@,
            exit_reason: "none"@,
        },
        Ok(SwitcherFourViewControlledPreviewCommand::Quit) => ControlCommandDecisionView {
            control_command_name: "quit"@,
            requested_transition: "Quit"@,
            transition_result: "ExitRequested"@,
            next_view_state: current,
            renders: false,
            command_parse_error: "none"@,
            exit_reason: "QuitRequested"@,
        },
        Err(e) => ControlCommandDecisionView {
            control_command_name: e.command_name,
            requested_transition: e.requested_transition,
            transition_result: "Rejected"@,
            next_view_state: current,
            renders: false,
            command_parse_error: e.message,
            exit_reason: "none"@,
        },
    }
}

/// Decides what a control command line does in the current view state.
pub fn decide_four_view_control_command(
    raw_command: &str,
    current: SwitcherFourViewControlledPreviewViewState,
) -> (r: ControlCommandDecision)
    ensures
        r@ == control_command_decision(raw_command@, current),
{
    match parse_four_view_control_command(raw_command) {
        Ok(SwitcherFourViewControlledPreviewCommand::All) => ControlCommandDecision {
            control_command_name: owned("all"),
            requested_transition: owned("AllView"),
            transition_result: match current {
                SwitcherFourViewControlledPreviewViewState::AllView => owned("NoChange"),
                _ => owned("Transitioned"),
            },
            next_view_state: SwitcherFourViewControlledPreviewViewState::AllView,
            renders: true,
            command_parse_error: owned("none"),
            exit_reason: owned("none"),
        },
        Ok(SwitcherFourViewControlledPreviewCommand::Focus(i)) => {
            let mut requested = owned("Focused(");
            push_decimal(&mut requested, i as u128);
            push_str(&mut requested, ")");
            let same = match current {
                SwitcherFourViewControlledPreviewViewState::Focused(c) => c == i,
                _ => false,
            };
            ControlCommandDecision {
                control_command_name: owned("focus"),
                requested_transition: requested,
                transition_result: if same {
                    owned("NoChange")
                } else {
                    owned("Transitioned")
                },
                next_view_state: SwitcherFourViewControlledPreviewViewState::Focused(i),
                renders: true,
                command_parse_error: owned("none"),
                exit_reason: owned("none"),
            }
        },
        Ok(SwitcherFourViewControlledPreviewCommand::Status) => ControlCommandDecision {
            control_command_name: owned("status"),
            requested_transition: owned("Status"),
            transition_result: owned("Observed"),
            next_view_state: current,
            renders: true,
            command_parse_error: owned("none"),
            exit_reason: owned("none"),
        },
        Ok(SwitcherFourViewControlledPreviewCommand::Quit) => ControlCommandDecision {
            control_command_name: owned("quit"),
            requested_transition: owned("Quit"),
            transition_result: owned("ExitRequested"),
            next_view_state: current,
            renders: false,
            command_parse_error: owned("none"),
            exit_reason: owned("QuitRequested"),
        },
        Err(e) => ControlCommandDecision {
            control_command_name: e.command_name,
            requested_transition: e.requested_transition,
            transition_result: owned("Rejected"),
            next_view_state: current,
            renders: false,
            command_parse_error: e.message,
            exit_reason: owned("none"),
        },
    }
}

/// How a view state is rendered: its render mode, its output layout, the
/// result kind reported while nothing has rendered, and the focused slot.
pub struct ControlledViewLayout {
    pub view_render_mode: String,
    pub output_layout: String,
    pub no_render_result_kind: String,
    pub focused_slot_index: Option<usize>,
}

/// The render mode of a view state.
pub open spec fn view_render_mode_text(state: SwitcherFourViewControlledPreviewViewState) -> Seq<
    char,
> {
    match state {
        SwitcherFourViewControlledPreviewViewState::AllView => "AllView"@,
        SwitcherFourViewControlledPreviewViewState::Focused(_) => "Focused"@,
    }
}

/// The output layout of a view state.
pub open spec fn output_layout_text(state: SwitcherFourViewControlledPreviewViewState) -> Seq<
    char,
> {
    match state {
        SwitcherFourViewControlledPreviewViewState::AllView => "QuadView"@,
        SwitcherFourViewControlledPreviewViewState::Focused(_) => "FocusedFullWindow"@,
    }
}

/// The result kind of a view state before anything renders.
pub open spec fn no_render_result_text(state: SwitcherFourViewControlledPreviewViewState) -> Seq<
    char,
> {
    match state {
        SwitcherFourViewControlledPreviewViewState::AllView => "NoRenderableQuadView"@,
        SwitcherFourViewControlledPreviewViewState::Focused(_) => "NoRenderableFocusedView"@,
    }
}

/// The layout names of a view state.
pub fn controlled_view_layout(state: SwitcherFourViewControlledPreviewViewState) -> (r:
    ControlledViewLayout)
    ensures
        r.view_render_mode@ == view_render_mode_text(state),
        r.output_layout@ == output_layout_text(state),
        r.no_render_result_kind@ == no_render_result_text(state),
        r.focused_slot_index == match state {
            SwitcherFourViewControlledPreviewViewState::AllView => None::<usize>,
            SwitcherFourViewControlledPreviewViewState::Focused(i) => Some(i),
        },
{
    match state {
        SwitcherFourViewControlledPreviewViewState::AllView => ControlledViewLayout {
            view_render_mode: owned("AllView"),
            output_layout: owned("QuadView"),
            no_render_result_kind: owned("NoRenderableQuadView"),
            focused_slot_index: None,
        },
        SwitcherFourViewControlledPreviewViewState::Focused(i) => ControlledViewLayout {
            view_render_mode: owned("Focused"),
            output_layout: owned("FocusedFullWindow"),
            no_render_result_kind: owned("NoRenderableFocusedView"),
            focused_slot_index: Some(i),
        },
    }
}

/// The slot result that a view reports: the focused slot's scheduler result,
/// or `NotApplicable` for the quad view.
pub fn controlled_selected_slot_result(
    state: SwitcherFourViewControlledPreviewViewState,
    slot_result_kinds: &[String; 4],
) -> (r: String)
    requires
        state matches SwitcherFourViewControlledPreviewViewState::Focused(i) ==> i < 4,
    ensures
        r@ == match state {
            SwitcherFourViewControlledPreviewViewState::AllView => "NotApplicable"@,
            SwitcherFourViewControlledPreviewViewState::Focused(i) => slot_result_kinds@[i as int]@,
        },
{
    match state {
        SwitcherFourViewControlledPreviewViewState::AllView => owned("NotApplicable"),
        SwitcherFourViewControlledPreviewViewState::Focused(i) => slot_result_kinds[i].clone(),
    }
}

/// The summary of one command of the controlled preview loop.
#[derive(Debug, Clone, PartialEq, Eq)]
pub struct SwitcherFourViewControlledPreviewCommandSummary {
    pub command_index: usize,
    pub control_command_name: String,
    pub current_view_state: SwitcherFourViewControlledPreviewViewState,
    pub view_render_mode: String,
    pub output_layout: String,
    pub requested_transition: String,
    pub transition_result: String,
    pub selected_slot_result: String,
    pub rendered_slot_count: u32,
    pub focused_slot_index: Option<usize>,
    pub frames_rendered: u32,
    pub render_failures: u32,
    /// The scheduler status, by the name of its variant.
    pub scheduler_status: String,
    pub clean_output_render_result_kind: String,
    pub all_view_render_result_kind: String,
    pub command_parse_error: String,
    pub exit_reason: String,
}

/// What rendering a view over one command's ticks gave: the view's layout
/// names and focused slot, the focused slot's scheduler result, the frames
/// rendered and failed, and the last tick's scheduler status, slot results,
/// slot diagnostics, result kinds and window title.
#[derive(Debug, Clone, PartialEq, Eq)]
pub struct FourViewControlledPreviewRenderOutcome {
    pub view_render_mode: String,
    pub output_layout: String,
    pub selected_slot_result: String,
    pub rendered_slot_count: u32,
    pub focused_slot_index: Option<usize>,
    pub frames_rendered: u32,
    pub render_failures: u32,
    /// The scheduler status, by the name of its variant.
    pub scheduler_status: String,
    pub slot_result_kinds: [String; 4],
    pub slot_diagnostics: [String; 4],
    pub clean_output_render_result_kind: String,
    pub all_view_render_result_kind: String,
    pub window_title: String,
}

/// What rendering a view over one command's ticks gave, from the view
/// state, the frames counted over the ticks, and what the last tick saw: the
/// view's layout names and focused slot, the focused slot's scheduler result
/// (`NotApplicable` for the quad view), and the last tick's values as they
/// came.
pub fn finish_four_view_controlled_render(
    state: SwitcherFourViewControlledPreviewViewState,
    frames: &FrameRenderTally,
    rendered_slot_count: u32,
    scheduler_status: String,
    slot_result_kinds: [String; 4],
    slot_diagnostics: [String; 4],
    clean_output_render_result_kind: String,
    all_view_render_result_kind: String,
    window_title: String,
) -> (r: FourViewControlledPreviewRenderOutcome)
    requires
        state matches SwitcherFourViewControlledPreviewViewState::Focused(i) ==> i < 4,
    ensures
        r.view_render_mode@ == view_render_mode_text(state),
        r.output_layout@ == output_layout_text(state),
        r.focused_slot_index == match state {
            SwitcherFourViewControlledPreviewViewState::AllView => None::<usize>,
            SwitcherFourViewControlledPreviewViewState::Focused(i) => Some(i),
        },
        r.selected_slot_result@ == match state {
            SwitcherFourViewControlledPreviewViewState::AllView => "NotApplicable"@,
            SwitcherFourViewControlledPreviewViewState::Focused(i) => slot_result_kinds@[i as int]@,
        },
        r.frames_rendered == frames.frames_rendered,
        r.render_failures == frames.render_failures,
        r.rendered_slot_count == rendered_slot_count,
        r.scheduler_status == scheduler_status,
        r.slot_result_kinds == slot_result_kinds,
        r.slot_diagnostics == slot_diagnostics,
        r.clean_output_render_result_kind == clean_output_render_result_kind,
        r.all_view_render_result_kind == all_view_render_result_kind,
        r.window_title == window_title,
{
    let layout = controlled_view_layout(state);
    let selected_slot_result = controlled_selected_slot_result(state, &slot_result_kinds);
    FourViewControlledPreviewRenderOutcome {
        view_render_mode: layout.view_render_mode,
        output_layout: layout.output_layout,
        selected_slot_result,
        rendered_slot_count,
        focused_slot_index: layout.focused_slot_index,
        frames_rendered: frames.frames_rendered,
        render_failures: frames.render_failures,
        scheduler_status,
        slot_result_kinds,
        slot_diagnostics,
        clean_output_render_result_kind,
        all_view_render_result_kind,
        window_title,
    }
}

/// The summary of one command: the decision's names, transition, parse
/// error and exit reason, the view state after it, and what rendering gave;
/// a command that did not render reports no layout (`none`), no slot result
/// (`NotApplicable`), no frames, a `NoFrames` scheduler, no clean output
/// (`none`) and no all-view render (`not_applicable`).
pub fn four_view_controlled_command_summary(
    command_index: usize,
    decision: &ControlCommandDecision,
    render: Option<&FourViewControlledPreviewRenderOutcome>,
) -> (r: SwitcherFourViewControlledPreviewCommandSummary)
    ensures
        r.command_index == command_index,
        r.control_command_name@ == decision.control_command_name@,
        r.current_view_state == decision.next_view_state,
        r.requested_transition@ == decision.requested_transition@,
        r.transition_result@ == decision.transition_result@,
        r.command_parse_error@ == decision.command_parse_error@,
        r.exit_reason@ == decision.exit_reason@,
        match render {
            Some(o) => {
                &&& r.view_render_mode@ == o.view_render_mode@
                &&& r.output_layout@ == o.output_layout@
                &&& r.selected_slot_result@ == o.selected_slot_result@
                &&& r.rendered_slot_count == o.rendered_slot_count
                &&& r.focused_slot_index == o.focused_slot_index
                &&& r.frames_rendered == o.frames_rendered
                &&& r.render_failures == o.render_failures
                &&& r.scheduler_status@ == o.scheduler_status@
                &&& r.clean_output_render_result_kind@ == o.clean_output_render_result_kind@
                &&& r.all_view_render_result_kind@ == o.all_view_render_result_kind@
            },
            None => {
                &&& r.view_render_mode@ == "none"@
                &&& r.output_layout@ == "none"@
                &&& r.selected_slot_result@ == "NotApplicable"@
                &&& r.rendered_slot_count == 0
                &&& r.focused_slot_index is None
                &&& r.frames_rendered == 0
                &&& r.render_failures == 0
                &&& r.scheduler_status@ == "NoFrames"@
                &&& r.clean_output_render_result_kind@ == "none"@
                &&& r.all_view_render_result_kind@ == "not_applicable"@
            },
        },
{
    let mut summary = SwitcherFourViewControlledPreviewCommandSummary {
        command_index,
        control_command_name: owned(decision.control_command_name.as_str()),
        current_view_state: decision.next_view_state,
        view_render_mode: owned("none"),
        output_layout: owned("none"),
        requested_transition: owned(decision.requested_transition.as_str()),
        transition_result: owned(decision.transition_result.as_str()),
        selected_slot_result: owned("NotApplicable"),
        rendered_slot_count: 0,
        focused_slot_index: None,
        frames_rendered: 0,
        render_failures: 0,
        scheduler_status: owned("NoFrames"),
        clean_output_render_result_kind: owned("none"),
        all_view_render_result_kind: owned("not_applicable"),
        command_parse_error: owned(decision.command_parse_error.as_str()),
        exit_reason: owned(decision.exit_reason.as_str()),
    };
    if let Some(o) = render {
        summary.view_render_mode = owned(o.view_render_mode.as_str());
        summary.output_layout = owned(o.output_layout.as_str());
        summary.selected_slot_result = owned(o.selected_slot_result.as_str());
        summary.rendered_slot_count = o.rendered_slot_count;
        summary.focused_slot_index = o.focused_slot_index;
        summary.frames_rendered = o.frames_rendered;
        summary.render_failures = o.render_failures;
        summary.scheduler_status = owned(o.scheduler_status.as_str());
        summary.clean_output_render_result_kind = owned(o.clean_output_render_result_kind.as_str());
        summary.all_view_render_result_kind = owned(o.all_view_render_result_kind.as_str());
    }
    summary
}

/// The response line that the control pipe sends back for a command.
pub open spec fn control_pipe_response(
    command: Seq<char>,
    summary: SwitcherFourViewControlledPreviewCommandSummary,
) -> Seq<char> {
    "switcher four-view control response command="@ + sanitized(command)
        + " transition_result="@ + summary.transition_result@
        + " current_view_state="@ + view_state_text(summary.current_view_state)
        + " view_render_mode="@ + summary.view_render_mode@
        + " output_layout="@ + summary.output_layout@
        + " rendered_slot_count="@ + decimal(summary.rendered_slot_count as nat)
        + " focused_slot_index="@ + optional_decimal(opt_usize(summary.focused_slot_index))
        + " selected_slot_result="@ + summary.selected_slot_result@
        + " clean_output_render_result_kind="@ + summary.clean_output_render_result_kind@
        + " all_view_render_result_kind="@ + summary.all_view_render_result_kind@
        + " command_parse_error="@ + sanitized(summary.command_parse_error@)
        + " exit_reason="@ + summary.exit_reason@
}

/// Formats the response line for a command.
pub fn format_four_view_control_pipe_command_response(
    command: &str,
    summary: &SwitcherFourViewControlledPreviewCommandSummary,
) -> (r: String)
    ensures
        r@ == control_pipe_response(command@, *summary),
{
    let mut s = owned("switcher four-view control response command=");
    let c = sanitize_summary_value(command);
    push_str(&mut s, c.as_str());
    push_str(&mut s, " transition_result=");
    push_str(&mut s, summary.transition_result.as_str());
    push_str(&mut s, " current_view_state=");
    push_view_state(&mut s, summary.current_view_state);
    push_str(&mut s, " view_render_mode=");
    push_str(&mut s, summary.view_render_mode.as_str());
    push_str(&mut s, " output_layout=");
    push_str(&mut s, summary.output_layout.as_str());
    push_str(&mut s, " rendered_slot_count=");
    push_decimal(&mut s, summary.rendered_slot_count as u128);
    push_str(&mut s, " focused_slot_index=");
    let focused: Option<u128> = match summary.focused_slot_index {
        Some(i) => Some(i as u128),
        None => None,
    };
    push_optional_u128(&mut s, focused);
    push_str(&mut s, " selected_slot_result=");
    push_str(&mut s, summary.selected_slot_result.as_str());
    push_str(&mut s, " clean_output_render_result_kind=");
    push_str(&mut s, summary.clean_output_render_result_kind.as_str());
    push_str(&mut s, " all_view_render_result_kind=");
    push_str(&mut s, summary.all_view_render_result_kind.as_str());
    push_str(&mut s, " command_parse_error=");
    let e = sanitize_summary_value(summary.command_parse_error.as_str());
    push_str(&mut s, e.as_str());
    push_str(&mut s, " exit_reason=");
    push_str(&mut s, summary.exit_reason.as_str());
    s
}


/// How the loop summary names a command source: `stdin`, `scripted:<script>`
/// or `control-pipe:<name>`, the text sanitized.
pub open spec fn command_source_text(source: CommandSourceView) -> Seq<char> {
    match source {
        CommandSourceView::Stdin => "stdin"@,
        CommandSourceView::Scripted(s) => "scripted:"@ + sanitized(s),
        CommandSourceView::ControlPipe(p) => "control-pipe:"@ + sanitized(p),
    }
}

/// The loop summary's name for a command source.
pub fn format_four_view_control_command_source(source: &FourViewControlCommandSource) -> (r:
    String)
    ensures
        r@ == command_source_text(source@),
{
    match source {
        FourViewControlCommandSource::Stdin => owned("stdin"),
        FourViewControlCommandSource::Scripted(script) => {
            let mut s = owned("scripted:");
            let t = sanitize_summary_value(script.as_str());
            push_str(&mut s, t.as_str());
            s
        },
        FourViewControlCommandSource::ControlPipe(pipe) => {
            let mut s = owned("control-pipe:");
            let t = sanitize_summary_value(pipe.as_str());
            push_str(&mut s, t.as_str());
            s
        },
    }
}

/// The counts and exit reason that the controlled loop keeps over its
/// commands.
pub struct ControlLoopTally {
    pub commands_processed: u32,
    pub commands_rejected: u32,
    pub frames_rendered_total: u32,
    pub render_failures_total: u32,
    pub exit_reason: String,
}

impl ControlLoopTally {
    /// Rejected commands are among the processed ones.
    pub open spec fn wf(&self) -> bool {
        self.commands_rejected <= self.commands_processed
    }

    /// No command yet; the loop ends with `CommandSequenceCompleted` unless a
    /// command says otherwise.
    pub fn new() -> (r: ControlLoopTally)
        ensures
            r.wf(),
            r.commands_processed == 0,
            r.commands_rejected == 0,
            r.frames_rendered_total == 0,
            r.render_failures_total == 0,
            r.exit_reason@ == "CommandSequenceCompleted"@,
    {
        ControlLoopTally {
            commands_processed: 0,
            commands_rejected: 0,
            frames_rendered_total: 0,
            render_failures_total: 0,
            exit_reason: owned("CommandSequenceCompleted"),
        }
    }

    /// Counts one command summary; a rejected one is also counted as
    /// rejected, its rendered frames and render failures are added to the
    /// totals, an exit reason other than `none` becomes the loop's, and the
    /// result says whether the loop stops (on `QuitRequested`).
    pub fn record(&mut self, summary: &SwitcherFourViewControlledPreviewCommandSummary) -> (stop:
        bool)
        requires
            old(self).wf(),
            old(self).commands_processed < u32::MAX,
            old(self).frames_rendered_total + summary.frames_rendered <= u32::MAX,
            old(self).render_failures_total + summary.render_failures <= u32::MAX,
        ensures
            final(self).wf(),
            final(self).commands_processed == old(self).commands_processed + 1,
            final(self).frames_rendered_total == old(self).frames_rendered_total
                + summary.frames_rendered,
            final(self).render_failures_total == old(self).render_failures_total
                + summary.render_failures,
            final(self).commands_rejected == old(self).commands_rejected + if summary.transition_result@
                == "Rejected"@ {
                1int
            } else {
                0int
            },
            final(self).exit_reason@ == if summary.exit_reason@ != "none"@ {
                summary.exit_reason@
            } else {
                old(self).exit_reason@
            },
            stop == (summary.exit_reason@ == "QuitRequested"@),
    {
        self.commands_processed = self.commands_processed + 1;
        self.frames_rendered_total = self.frames_rendered_total + summary.frames_rendered;
        self.render_failures_total = self.render_failures_total + summary.render_failures;
        if crate::text::str_eq(summary.transition_result.as_str(), "Rejected") {
            self.commands_rejected = self.commands_rejected + 1;
        }
        if !crate::text::str_eq(summary.exit_reason.as_str(), "none") {
            self.exit_reason = summary.exit_reason.clone();
        }
        crate::text::str_eq(summary.exit_reason.as_str(), "QuitRequested")
    }

    /// Ends a standard-input session: input that ran out without a quit ends
    /// with `EndOfInput`.
    pub fn finish_stdin(&mut self)
        requires
            old(self).wf(),
        ensures
            final(self).wf(),
            final(self).commands_processed == old(self).commands_processed,
            final(self).commands_rejected == old(self).commands_rejected,
            final(self).frames_rendered_total == old(self).frames_rendered_total,
            final(self).render_failures_total == old(self).render_failures_total,
            final(self).exit_reason@ == if old(self).exit_reason@ == "CommandSequenceCompleted"@ {
                "EndOfInput"@
            } else {
                old(self).exit_reason@
            },
    {
        if crate::text::str_eq(self.exit_reason.as_str(), "CommandSequenceCompleted") {
            self.exit_reason = owned("EndOfInput");
        }
    }
}

/// The local path of a named control pipe.
pub open spec fn control_pipe_path(pipe_name: Seq<char>) -> Seq<char> {
    "\\\\.\\pipe\\"@ + pipe_name
}

/// The path of the named control pipe; a blank name is refused.
pub fn control_named_pipe_path(pipe_name: &str) -> (r: Result<String, String>)
    ensures
        trim(pipe_name@).len() == 0 ==> (r matches Err(e) && e@
            == "control pipe name must not be empty"@),
        trim(pipe_name@).len() != 0 ==> (r matches Ok(p) && p@ == control_pipe_path(pipe_name@)),
{
    if is_blank(pipe_name) {
        return Err(owned("control pipe name must not be empty"));
    }
    let mut p = owned("\\\\.\\pipe\\");
    push_str(&mut p, pipe_name);
    Ok(p)
}

/// The commands of a `;`-separated command script, each trimmed, empty ones
/// left out.
pub fn split_scripted_control_commands(script: &str) -> (r: Vec<String>)
    ensures
        crate::text::string_views(r@) == crate::text::semicolon_tokens(script@),
{
    crate::text::semicolon_separated_entries(script)
}

/// What each command does to the view: `all` shows the quad and `focus i`
/// shows slot `i`, for a slot from 0 to 3; `status`, `quit` and a rejected
/// line keep the view. Only `quit` asks the loop to exit, and it alone of the
/// accepted commands does not render; a rejected line renders nothing.
pub proof fn law_control_command_transitions(
    raw: Seq<char>,
    current: SwitcherFourViewControlledPreviewViewState,
)
    ensures
        ({
            let d = control_command_decision(raw, current);
            &&& match control_command(raw) {
                Ok(SwitcherFourViewControlledPreviewCommand::All) => d.next_view_state
                    == SwitcherFourViewControlledPreviewViewState::AllView,
                Ok(SwitcherFourViewControlledPreviewCommand::Focus(i)) => d.next_view_state
                    == SwitcherFourViewControlledPreviewViewState::Focused(i) && i <= 3,
                _ => d.next_view_state == current,
            }
            &&& (d.exit_reason == "QuitRequested"@) <==> control_command(raw) == Ok::<
                SwitcherFourViewControlledPreviewCommand,
                ParseErrorView,
            >(SwitcherFourViewControlledPreviewCommand::Quit)
            &&& d.renders <==> (control_command(raw) is Ok && !(control_command(raw) matches Ok(
                SwitcherFourViewControlledPreviewCommand::Quit,
            )))
            &&& (d.transition_result == "Rejected"@) <==> control_command(raw) is Err
        }),
{
    reveal_strlit("QuitRequested");
    reveal_strlit("none");
    reveal_strlit("Rejected");
    reveal_strlit("NoChange");
    reveal_strlit("Transitioned");
    reveal_strlit("Observed");
    reveal_strlit("ExitRequested");
    assert("QuitRequested"@.len() != "none"@.len());
    assert("Rejected"@[0] != "Observed"@[0]);
    match control_command(raw) {
        Ok(SwitcherFourViewControlledPreviewCommand::Focus(i)) => {
            lemma_focus_index_in_range(raw);
        },
        _ => {},
    }
}

proof fn lemma_focus_index_in_range(raw: Seq<char>)
    ensures
        control_command(raw) matches Ok(SwitcherFourViewControlledPreviewCommand::Focus(i)) ==> i
            <= 3,
{
}

/// Asking twice for the same view changes nothing the second time: after
/// `all` or `focus i` has been applied, the same line reports `NoChange`.
pub proof fn law_repeated_view_command_reports_no_change(
    raw: Seq<char>,
    current: SwitcherFourViewControlledPreviewViewState,
)
    requires
        control_command(raw) matches Ok(c) && (c is All || c is Focus),
    ensures
        control_command_decision(
            raw,
            control_command_decision(raw, current).next_view_state,
        ).transition_result == "NoChange"@,
{
}

/// Whether the words `w` of a command line stand for the command `c`:
/// `all`, `status` or `quit` alone, or `focus` with one slot index from 0 to
/// 3.
pub open spec fn command_words(w: Seq<Seq<char>>, c: SwitcherFourViewControlledPreviewCommand) -> bool {
    match c {
        SwitcherFourViewControlledPreviewCommand::All => w == seq!["all"@],
        SwitcherFourViewControlledPreviewCommand::Status => w == seq!["status"@],
        SwitcherFourViewControlledPreviewCommand::Quit => w == seq!["quit"@],
        SwitcherFourViewControlledPreviewCommand::Focus(n) => {
            &&& w.len() == 2
            &&& w[0] == "focus"@
            &&& n <= 3
            &&& parse_unsigned(w[1], usize::MAX as nat) matches Ok(v) && v == n
        },
    }
}

/// A command line is accepted exactly when its white-space separated words
/// stand for a command with the arguments it takes, and it is parsed as that
/// command.
pub proof fn law_control_command_accepts_words(raw: Seq<char>)
    ensures
        control_command(raw) matches Ok(c) ==> command_words(words(raw), c),
        forall|c: SwitcherFourViewControlledPreviewCommand|
            #[trigger] command_words(words(raw), c) ==> control_command(raw) == Ok::<
                SwitcherFourViewControlledPreviewCommand,
                ParseErrorView,
            >(c),
{
    law_words_ignore_surrounding_white_space(raw);
    reveal_strlit("all");
    reveal_strlit("status");
    reveal_strlit("quit");
    reveal_strlit("focus");
    let w = words(raw);
    if control_command(raw) is Ok {
        if w[0] == "all"@ {
            assert(w =~= seq!["all"@]);
        } else if w[0] == "status"@ {
            assert(w =~= seq!["status"@]);
        } else if w[0] == "quit"@ {
            assert(w =~= seq!["quit"@]);
        }
    }
}

/// How a command line is rejected, by its white-space separated words: no
/// word at all is an empty command; `all`, `status` or `quit` with an
/// argument, and `focus` without one or with several, are refused with a
/// message naming the fault; `focus` with one argument that is not a slot
/// index from 0 to 3 is an invalid focus index; and a first word that names
/// no command is an unknown command, reported by that word and the trimmed
/// line.
pub proof fn law_control_command_rejections(raw: Seq<char>)
    ensures
        ({
            let w = words(raw);
            &&& w.len() == 0 ==> control_command(raw) == rejection(
                "empty"@,
                "none"@,
                "empty command"@,
            )
            &&& w.len() > 1 && w[0] == "all"@ ==> control_command(raw) == rejection(
                "all"@,
                "AllView"@,
                "all does not accept arguments"@,
            )
            &&& w.len() > 1 && w[0] == "status"@ ==> control_command(raw) == rejection(
                "status"@,
                "Status"@,
                "status does not accept arguments"@,
            )
            &&& w.len() > 1 && w[0] == "quit"@ ==> control_command(raw) == rejection(
                "quit"@,
                "Quit"@,
                "quit does not accept arguments"@,
            )
            &&& w.len() == 1 && w[0] == "focus"@ ==> control_command(raw) == rejection(
                "focus"@,
                "Focused(?)"@,
                "missing focus index"@,
            )
            &&& w.len() > 2 && w[0] == "focus"@ ==> control_command(raw) == rejection(
                "focus"@,
                focused_text(w[1]),
                "focus accepts exactly one slot index"@,
            )
            &&& w.len() == 2 && w[0] == "focus"@ && !(parse_unsigned(w[1], usize::MAX as nat) matches Ok(
                v,
            ) && v <= 3) ==> control_command(raw) == rejection(
                "focus"@,
                focused_text(w[1]),
                focus_index_message(),
            )
            &&& w.len() > 0 && w[0] != "all"@ && w[0] != "status"@ && w[0] != "quit"@ && w[0]
                != "focus"@ ==> control_command(raw) == rejection(
                sanitized(w[0]),
                sanitized(trim(raw)),
                "unknown command"@,
            )
        }),
{
    law_words_ignore_surrounding_white_space(raw);
    reveal_strlit("all");
    reveal_strlit("status");
    reveal_strlit("quit");
    reveal_strlit("focus");
}

/// A view command reports `NoChange` exactly when the view it asks for is
/// the view already shown, and `Transitioned` otherwise: `focus i` leaves a
/// view focused on another slot (or showing all four) with a transition.
pub proof fn law_view_command_reports_change_exactly_when_view_changes(
    raw: Seq<char>,
    current: SwitcherFourViewControlledPreviewViewState,
)
    requires
        control_command(raw) matches Ok(c) && (c is All || c is Focus),
    ensures
        ({
            let d = control_command_decision(raw, current);
            &&& d.transition_result == "NoChange"@ <==> d.next_view_state == current
            &&& d.transition_result == "Transitioned"@ <==> d.next_view_state != current
            &&& control_command(raw) matches Ok(SwitcherFourViewControlledPreviewCommand::Focus(i))
                ==> (d.transition_result == "NoChange"@ <==> current
                == SwitcherFourViewControlledPreviewViewState::Focused(i))
        }),
{
    reveal_strlit("NoChange");
    reveal_strlit("Transitioned");
    assert("NoChange"@.len() != "Transitioned"@.len());
    law_control_command_transitions(raw, current);
}

} // verus!
