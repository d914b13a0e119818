//! The summary lines of the preview loops: what each loop reports once it
//! ends, as one line of `key=value` words.
use vstd::prelude::*;
use crate::control::{
    push_view_state, view_state_text, SwitcherFourViewControlledPreviewCommandSummary,
    SwitcherFourViewControlledPreviewViewState,
};
use crate::modes::{fixture_mode_name, format_four_view_manual_preview_fixture_mode_name, ManualPreviewFixtureMode};
use crate::slot_diagnostics::{push_opt_bool, push_opt_nat, push_opt_u32, push_opt_usize};
use crate::text::{
    bool_text, decimal, opt_u128, opt_u32, opt_u64, opt_usize, optional_bool_text, optional_decimal,
    push_bool, push_decimal, push_optional_u128, push_str, sanitize_summary_value, sanitized,
};

verus! {

/// Four texts joined by `|`.
pub open spec fn pipe_joined(a: [String; 4]) -> Seq<char> {
    a@[0]@ + "|"@ + a@[1]@ + "|"@ + a@[2]@ + "|"@ + a@[3]@
}

fn push_pipe_joined(out: &mut String, a: &[String; 4])
    ensures
        final(out)@ == old(out)@ + pipe_joined(*a),
{
    let ghost start = out@;
    push_str(out, a[0].as_str());
    push_str(out, "|");
    push_str(out, a[1].as_str());
    push_str(out, "|");
    push_str(out, a[2].as_str());
    push_str(out, "|");
    push_str(out, a[3].as_str());
    assert(out@ =~= start + pipe_joined(*a));
}

fn push_sanitized(out: &mut String, text: &str)
    ensures
        final(out)@ == old(out)@ + sanitized(text@),
{
    let t = sanitize_summary_value(text);
    push_str(out, t.as_str());
}

/// What the clean output window loop reports.
#[derive(Debug, Clone, PartialEq, Eq)]
pub struct SwitcherFourViewCleanOutputWindowLoopSummary {
    pub fixture_mode: ManualPreviewFixtureMode,
    pub window_title: String,
    pub frames_attempted: u32,
    pub frames_rendered: u32,
    pub render_failures: u32,
    pub window_created: bool,
    pub persistent_window: bool,
    pub window_updates: u32,
    pub window_closed: bool,
    pub source_width: Option<u32>,
    pub source_height: Option<u32>,
    pub output_width: Option<u32>,
    pub output_height: Option<u32>,
    pub scale_mode: String,
    pub window_visible: Option<bool>,
    pub window_capture_candidate: Option<bool>,
    pub bgra_payload_len: Option<usize>,
}

/// Part 1 of the summary line.
pub open spec fn clean_output_window_loop_summary_line_part1(s: SwitcherFourViewCleanOutputWindowLoopSummary) -> Seq<char> {
    "switcher four-view clean output window loop command_name=--four-view-clean-output-window-loop fixture_mode="@
        + fixture_mode_name(s.fixture_mode)
        + " clean_output_window=true actual_window_render=true real_handoff=false window_title="@
        + s.window_title@
        + " frames_attempted="@
        + decimal(s.frames_attempted as nat)
        + " frames_rendered="@
        + decimal(s.frames_rendered as nat)
        + " render_failures="@
        + decimal(s.render_failures as nat)
        + " window_created="@
        + bool_text(s.window_created)
        + " persistent_window="@
        + bool_text(s.persistent_window)
        + " window_updates="@
        + decimal(s.window_updates as nat)
        + " window_closed="@
        + bool_text(s.window_closed)
        + " source_width="@
        + optional_decimal(opt_u32(s.source_width))
}

/// Part 2 of the summary line.
pub open spec fn clean_output_window_loop_summary_line_part2(s: SwitcherFourViewCleanOutputWindowLoopSummary) -> Seq<char> {
    " source_height="@
        + optional_decimal(opt_u32(s.source_height))
        + " output_width="@
        + optional_decimal(opt_u32(s.output_width))
        + " output_height="@
        + optional_decimal(opt_u32(s.output_height))
        + " scale_mode="@
        + s.scale_mode@
        + " window_visible="@
        + optional_bool_text(s.window_visible)
        + " window_capture_candidate="@
        + optional_bool_text(s.window_capture_candidate)
        + " bgra_payload_len="@
        + optional_decimal(opt_usize(s.bgra_payload_len))
}

/// The summary line: its parts in order.
pub open spec fn clean_output_window_loop_summary_line(s: SwitcherFourViewCleanOutputWindowLoopSummary) -> Seq<char> {
    clean_output_window_loop_summary_line_part1(s) + clean_output_window_loop_summary_line_part2(s)
}

fn format_clean_output_window_loop_summary_line_part1(s: &SwitcherFourViewCleanOutputWindowLoopSummary) -> (r: String)
    ensures
        r@ == clean_output_window_loop_summary_line_part1(*s),
{
    let mut text = String::new();
    push_str(&mut text, "switcher four-view clean output window loop command_name=--four-view-clean-output-window-loop fixture_mode=");
    push_str(&mut text, format_four_view_manual_preview_fixture_mode_name(s.fixture_mode));
    push_str(&mut text, " clean_output_window=true actual_window_render=true real_handoff=false window_title=");
    push_str(&mut text, s.window_title.as_str());
    push_str(&mut text, " frames_attempted=");
    push_decimal(&mut text, s.frames_attempted as u128);
    push_str(&mut text, " frames_rendered=");
    push_decimal(&mut text, s.frames_rendered as u128);
    push_str(&mut text, " render_failures=");
    push_decimal(&mut text, s.render_failures as u128);
    push_str(&mut text, " window_created=");
    push_bool(&mut text, s.window_created);
    push_str(&mut text, " persistent_window=");
    push_bool(&mut text, s.persistent_window);
    push_str(&mut text, " window_updates=");
    push_decimal(&mut text, s.window_updates as u128);
    push_str(&mut text, " window_closed=");
    push_bool(&mut text, s.window_closed);
    push_str(&mut text, " source_width=");
    push_opt_u32(&mut text, s.source_width);
    assert(text@ =~= clean_output_window_loop_summary_line_part1(*s));
    text
}

fn format_clean_output_window_loop_summary_line_part2(s: &SwitcherFourViewCleanOutputWindowLoopSummary) -> (r: String)
    ensures
        r@ == clean_output_window_loop_summary_line_part2(*s),
{
    let mut text = String::new();
    push_str(&mut text, " source_height=");
    push_opt_u32(&mut text, s.source_height);
    push_str(&mut text, " output_width=");
    push_opt_u32(&mut text, s.output_width);
    push_str(&mut text, " output_height=");
    push_opt_u32(&mut text, s.output_height);
    push_str(&mut text, " scale_mode=");
    push_str(&mut text, s.scale_mode.as_str());
    push_str(&mut text, " window_visible=");
    push_opt_bool(&mut text, s.window_visible);
    push_str(&mut text, " window_capture_candidate=");
    push_opt_bool(&mut text, s.window_capture_candidate);
    push_str(&mut text, " bgra_payload_len=");
    push_opt_usize(&mut text, s.bgra_payload_len);
    assert(text@ =~= clean_output_window_loop_summary_line_part2(*s));
    text
}

/// Formats the summary line of the clean output window loop.
pub fn format_four_view_clean_output_window_loop_summary(summary: &SwitcherFourViewCleanOutputWindowLoopSummary) -> (r: String)
    ensures
        r@ == clean_output_window_loop_summary_line(*summary),
{
    let mut text = String::new();
    let part = format_clean_output_window_loop_summary_line_part1(summary);
    push_str(&mut text, part.as_str());
    let part = format_clean_output_window_loop_summary_line_part2(summary);
    push_str(&mut text, part.as_str());
    assert(text@ =~= clean_output_window_loop_summary_line(*summary));
    text
}

/// What the real handoff preview loop reports.
#[derive(Debug, Clone, PartialEq, Eq)]
pub struct SwitcherFourViewRealHandoffPreviewLoopSummary {
    pub real_slot_index: usize,
    pub pipe_name: String,
    pub actual_pipe_path: String,
    pub client_id: String,
    pub run_id: String,
    pub frames_attempted: u32,
    pub frames_rendered: u32,
    pub render_failures: u32,
    /// The scheduler status, by the name of its variant.
    pub scheduler_status: String,
    pub slot_bindings: [String; 4],
    pub slot_result_kinds: [String; 4],
    pub slot_diagnostics: [String; 4],
    pub clean_output_render_result_kind: String,
    pub window_title: String,
    pub output_width: Option<u32>,
    pub output_height: Option<u32>,
}

/// Part 1 of the summary line.
pub open spec fn real_handoff_preview_loop_summary_line_part1(s: SwitcherFourViewRealHandoffPreviewLoopSummary) -> Seq<char> {
    "switcher four-view real handoff preview loop command_name=--four-view-real-handoff-preview-loop real_handoff=true real_slot_count=1 real_slot_index="@
        + decimal(s.real_slot_index as nat)
        + " pipe_name="@
        + s.pipe_name@
        + " actual_pipe_path="@
        + s.actual_pipe_path@
        + " client_id="@
        + s.client_id@
        + " run_id="@
        + s.run_id@
        + " frames_attempted="@
        + decimal(s.frames_attempted as nat)
        + " frames_rendered="@
        + decimal(s.frames_rendered as nat)
        + " render_failures="@
        + decimal(s.render_failures as nat)
        + " scheduler_status="@
        + s.scheduler_status@
        + " slot_bindings="@
        + pipe_joined(s.slot_bindings)
}

/// Part 2 of the summary line.
pub open spec fn real_handoff_preview_loop_summary_line_part2(s: SwitcherFourViewRealHandoffPreviewLoopSummary) -> Seq<char> {
    " slot_result_kinds="@
        + pipe_joined(s.slot_result_kinds)
        + " slot_diagnostics="@
        + pipe_joined(s.slot_diagnostics)
        + " clean_output_render_result_kind="@
        + s.clean_output_render_result_kind@
        + " window_title="@
        + s.window_title@
        + " output_width="@
        + optional_decimal(opt_u32(s.output_width))
        + " output_height="@
        + optional_decimal(opt_u32(s.output_height))
}

/// The summary line: its parts in order.
pub open spec fn real_handoff_preview_loop_summary_line(s: SwitcherFourViewRealHandoffPreviewLoopSummary) -> Seq<char> {
    real_handoff_preview_loop_summary_line_part1(s) + real_handoff_preview_loop_summary_line_part2(s)
}

fn format_real_handoff_preview_loop_summary_line_part1(s: &SwitcherFourViewRealHandoffPreviewLoopSummary) -> (r: String)
    ensures
        r@ == real_handoff_preview_loop_summary_line_part1(*s),
{
    let mut text = String::new();
    push_str(&mut text, "switcher four-view real handoff preview loop command_name=--four-view-real-handoff-preview-loop real_handoff=true real_slot_count=1 real_slot_index=");
    push_decimal(&mut text, s.real_slot_index as u128);
    push_str(&mut text, " pipe_name=");
    push_str(&mut text, s.pipe_name.as_str());
    push_str(&mut text, " actual_pipe_path=");
    push_str(&mut text, s.actual_pipe_path.as_str());
    push_str(&mut text, " client_id=");
    push_str(&mut text, s.client_id.as_str());
    push_str(&mut text, " run_id=");
    push_str(&mut text, s.run_id.as_str());
    push_str(&mut text, " frames_attempted=");
    push_decimal(&mut text, s.frames_attempted as u128);
    push_str(&mut text, " frames_rendered=");
    push_decimal(&mut text, s.frames_rendered as u128);
    push_str(&mut text, " render_failures=");
    push_decimal(&mut text, s.render_failures as u128);
    push_str(&mut text, " scheduler_status=");
    push_str(&mut text, s.scheduler_status.as_str());
    push_str(&mut text, " slot_bindings=");
    push_pipe_joined(&mut text, &s.slot_bindings);
    assert(text@ =~= real_handoff_preview_loop_summary_line_part1(*s));
    text
}

fn format_real_handoff_preview_loop_summary_line_part2(s: &SwitcherFourViewRealHandoffPreviewLoopSummary) -> (r: String)
    ensures
        r@ == real_handoff_preview_loop_summary_line_part2(*s),
{
    let mut text = String::new();
    push_str(&mut text, " slot_result_kinds=");
    push_pipe_joined(&mut text, &s.slot_result_kinds);
    push_str(&mut text, " slot_diagnostics=");
    push_pipe_joined(&mut text, &s.slot_diagnostics);
    push_str(&mut text, " clean_output_render_result_kind=");
    push_str(&mut text, s.clean_output_render_result_kind.as_str());
    push_str(&mut text, " window_title=");
    push_str(&mut text, s.window_title.as_str());
    push_str(&mut text, " output_width=");
    push_opt_u32(&mut text, s.output_width);
    push_str(&mut text, " output_height=");
    push_opt_u32(&mut text, s.output_height);
    assert(text@ =~= real_handoff_preview_loop_summary_line_part2(*s));
    text
}

/// Formats the summary line of the real handoff preview loop.
pub fn format_four_view_real_handoff_preview_loop_summary(summary: &SwitcherFourViewRealHandoffPreviewLoopSummary) -> (r: String)
    ensures
        r@ == real_handoff_preview_loop_summary_line(*summary),
{
    let mut text = String::new();
    let part = format_real_handoff_preview_loop_summary_line_part1(summary);
    push_str(&mut text, part.as_str());
    let part = format_real_handoff_preview_loop_summary_line_part2(summary);
    push_str(&mut text, part.as_str());
    assert(text@ =~= real_handoff_preview_loop_summary_line(*summary));
    text
}

/// What the four-real handoff preview loop reports.
#[derive(Debug, Clone, PartialEq, Eq)]
pub struct SwitcherFourViewFourRealHandoffPreviewLoopSummary {
    pub pipe_name: String,
    pub actual_pipe_path: String,
    pub preview_mode: String,
    pub read_mode: String,
    pub client0_id: String,
    pub run0_id: String,
    pub client1_id: String,
    pub run1_id: String,
    pub client2_id: String,
    pub run2_id: String,
    pub client3_id: String,
    pub run3_id: String,
    pub frames_attempted: u32,
    pub frames_rendered: u32,
    pub render_failures: u32,
    /// The scheduler status, by the name of its variant.
    pub scheduler_status: String,
    pub slot_bindings: [String; 4],
    pub slot_result_kinds: [String; 4],
    pub slot_diagnostics: [String; 4],
    pub clean_output_render_result_kind: String,
    pub window_title: String,
    pub output_width: Option<u32>,
    pub output_height: Option<u32>,
}

/// Part 1 of the summary line.
pub open spec fn four_real_handoff_preview_loop_summary_line_part1(s: SwitcherFourViewFourRealHandoffPreviewLoopSummary) -> Seq<char> {
    "switcher four-view four-real handoff preview loop command_name=--four-view-four-real-handoff-preview-loop real_handoff=true real_slot_count=4 pipe_name="@
        + s.pipe_name@
        + " actual_pipe_path="@
        + s.actual_pipe_path@
        + " preview_mode="@
        + s.preview_mode@
        + " read_mode="@
        + s.read_mode@
        + " client0_id="@
        + s.client0_id@
        + " run0_id="@
        + s.run0_id@
        + " client1_id="@
        + s.client1_id@
        + " run1_id="@
        + s.run1_id@
        + " client2_id="@
        + s.client2_id@
        + " run2_id="@
        + s.run2_id@
}

/// Part 2 of the summary line.
pub open spec fn four_real_handoff_preview_loop_summary_line_part2(s: SwitcherFourViewFourRealHandoffPreviewLoopSummary) -> Seq<char> {
    " client3_id="@
        + s.client3_id@
        + " run3_id="@
        + s.run3_id@
        + " frames_attempted="@
        + decimal(s.frames_attempted as nat)
        + " frames_rendered="@
        + decimal(s.frames_rendered as nat)
        + " render_failures="@
        + decimal(s.render_failures as nat)
        + " scheduler_status="@
        + s.scheduler_status@
        + " slot_bindings="@
        + pipe_joined(s.slot_bindings)
        + " slot_result_kinds="@
        + pipe_joined(s.slot_result_kinds)
        + " slot_diagnostics="@
        + pipe_joined(s.slot_diagnostics)
        + " clean_output_render_result_kind="@
        + s.clean_output_render_result_kind@
}

/// Part 3 of the summary line.
pub open spec fn four_real_handoff_preview_loop_summary_line_part3(s: SwitcherFourViewFourRealHandoffPreviewLoopSummary) -> Seq<char> {
    " window_title="@
        + s.window_title@
        + " output_width="@
        + optional_decimal(opt_u32(s.output_width))
        + " output_height="@
        + optional_decimal(opt_u32(s.output_height))
}

/// The summary line: its parts in order.
pub open spec fn four_real_handoff_preview_loop_summary_line(s: SwitcherFourViewFourRealHandoffPreviewLoopSummary) -> Seq<char> {
    four_real_handoff_preview_loop_summary_line_part1(s) + four_real_handoff_preview_loop_summary_line_part2(s) + four_real_handoff_preview_loop_summary_line_part3(s)
}

fn format_four_real_handoff_preview_loop_summary_line_part1(s: &SwitcherFourViewFourRealHandoffPreviewLoopSummary) -> (r: String)
    ensures
        r@ == four_real_handoff_preview_loop_summary_line_part1(*s),
{
    let mut text = String::new();
    push_str(&mut text, "switcher four-view four-real handoff preview loop command_name=--four-view-four-real-handoff-preview-loop real_handoff=true real_slot_count=4 pipe_name=");
    push_str(&mut text, s.pipe_name.as_str());
    push_str(&mut text, " actual_pipe_path=");
    push_str(&mut text, s.actual_pipe_path.as_str());
    push_str(&mut text, " preview_mode=");
    push_str(&mut text, s.preview_mode.as_str());
    push_str(&mut text, " read_mode=");
    push_str(&mut text, s.read_mode.as_str());
    push_str(&mut text, " client0_id=");
    push_str(&mut text, s.client0_id.as_str());
    push_str(&mut text, " run0_id=");
    push_str(&mut text, s.run0_id.as_str());
    push_str(&mut text, " client1_id=");
    push_str(&mut text, s.client1_id.as_str());
    push_str(&mut text, " run1_id=");
    push_str(&mut text, s.run1_id.as_str());
    push_str(&mut text, " client2_id=");
    push_str(&mut text, s.client2_id.as_str());
    push_str(&mut text, " run2_id=");
    push_str(&mut text, s.run2_id.as_str());
    assert(text@ =~= four_real_handoff_preview_loop_summary_line_part1(*s));
    text
}

fn format_four_real_handoff_preview_loop_summary_line_part2(s: &SwitcherFourViewFourRealHandoffPreviewLoopSummary) -> (r: String)
    ensures
        r@ == four_real_handoff_preview_loop_summary_line_part2(*s),
{
    let mut text = String::new();
    push_str(&mut text, " client3_id=");
    push_str(&mut text, s.client3_id.as_str());
    push_str(&mut text, " run3_id=");
    push_str(&mut text, s.run3_id.as_str());
    push_str(&mut text, " frames_attempted=");
    push_decimal(&mut text, s.frames_attempted as u128);
    push_str(&mut text, " frames_rendered=");
    push_decimal(&mut text, s.frames_rendered as u128);
    push_str(&mut text, " render_failures=");
    push_decimal(&mut text, s.render_failures as u128);
    push_str(&mut text, " scheduler_status=");
    push_str(&mut text, s.scheduler_status.as_str());
    push_str(&mut text, " slot_bindings=");
    push_pipe_joined(&mut text, &s.slot_bindings);
    push_str(&mut text, " slot_result_kinds=");
    push_pipe_joined(&mut text, &s.slot_result_kinds);
    push_str(&mut text, " slot_diagnostics=");
    push_pipe_joined(&mut text, &s.slot_diagnostics);
    push_str(&mut text, " clean_output_render_result_kind=");
    push_str(&mut text, s.clean_output_render_result_kind.as_str());
    assert(text@ =~= four_real_handoff_preview_loop_summary_line_part2(*s));
    text
}

fn format_four_real_handoff_preview_loop_summary_line_part3(s: &SwitcherFourViewFourRealHandoffPreviewLoopSummary) -> (r: String)
    ensures
        r@ == four_real_handoff_preview_loop_summary_line_part3(*s),
{
    let mut text = String::new();
    push_str(&mut text, " window_title=");
    push_str(&mut text, s.window_title.as_str());
    push_str(&mut text, " output_width=");
    push_opt_u32(&mut text, s.output_width);
    push_str(&mut text, " output_height=");
    push_opt_u32(&mut text, s.output_height);
    assert(text@ =~= four_real_handoff_preview_loop_summary_line_part3(*s));
    text
}

/// Formats the summary line of the four-real handoff preview loop.
pub fn format_four_view_four_real_handoff_preview_loop_summary(summary: &SwitcherFourViewFourRealHandoffPreviewLoopSummary) -> (r: String)
    ensures
        r@ == four_real_handoff_preview_loop_summary_line(*summary),
{
    let mut text = String::new();
    let part = format_four_real_handoff_preview_loop_summary_line_part1(summary);
    push_str(&mut text, part.as_str());
    let part = format_four_real_handoff_preview_loop_summary_line_part2(summary);
    push_str(&mut text, part.as_str());
    let part = format_four_real_handoff_preview_loop_summary_line_part3(summary);
    push_str(&mut text, part.as_str());
    assert(text@ =~= four_real_handoff_preview_loop_summary_line(*summary));
    text
}

/// What the focused handoff preview loop reports.
#[derive(Debug, Clone, PartialEq, Eq)]
pub struct SwitcherFourViewFocusedHandoffPreviewLoopSummary {
    pub pipe_name: String,
    pub actual_pipe_path: String,
    pub focused_slot_index: usize,
    pub client0_id: String,
    pub run0_id: String,
    pub client1_id: String,
    pub run1_id: String,
    pub client2_id: String,
    pub run2_id: String,
    pub client3_id: String,
    pub run3_id: String,
    pub focused_client_id: String,
    pub focused_run_id: String,
    pub focused_result_kind: String,
    pub frames_attempted: u32,
    pub frames_rendered: u32,
    pub render_failures: u32,
    /// The scheduler status, by the name of its variant.
    pub scheduler_status: String,
    pub slot_bindings: [String; 4],
    pub slot_result_kinds: [String; 4],
    pub slot_diagnostics: [String; 4],
    pub clean_output_render_result_kind: String,
    pub window_title: String,
    pub output_width: Option<u32>,
    pub output_height: Option<u32>,
}

/// Part 1 of the summary line.
pub open spec fn focused_handoff_preview_loop_summary_line_part1(s: SwitcherFourViewFocusedHandoffPreviewLoopSummary) -> Seq<char> {
    "switcher four-view focused handoff preview loop command_name=--four-view-focused-handoff-preview-loop real_handoff=true real_slot_count=4 view_state=Focused focused_slot_index="@
        + decimal(s.focused_slot_index as nat)
        + " pipe_name="@
        + s.pipe_name@
        + " actual_pipe_path="@
        + s.actual_pipe_path@
        + " client0_id="@
        + s.client0_id@
        + " run0_id="@
        + s.run0_id@
        + " client1_id="@
        + s.client1_id@
        + " run1_id="@
        + s.run1_id@
        + " client2_id="@
        + s.client2_id@
        + " run2_id="@
        + s.run2_id@
        + " client3_id="@
        + s.client3_id@
}

/// Part 2 of the summary line.
pub open spec fn focused_handoff_preview_loop_summary_line_part2(s: SwitcherFourViewFocusedHandoffPreviewLoopSummary) -> Seq<char> {
    " run3_id="@
        + s.run3_id@
        + " focused_client_id="@
        + s.focused_client_id@
        + " focused_run_id="@
        + s.focused_run_id@
        + " focused_result_kind="@
        + s.focused_result_kind@
        + " frames_attempted="@
        + decimal(s.frames_attempted as nat)
        + " frames_rendered="@
        + decimal(s.frames_rendered as nat)
        + " render_failures="@
        + decimal(s.render_failures as nat)
        + " scheduler_status="@
        + s.scheduler_status@
        + " slot_bindings="@
        + pipe_joined(s.slot_bindings)
        + " slot_result_kinds="@
        + pipe_joined(s.slot_result_kinds)
}

/// Part 3 of the summary line.
pub open spec fn focused_handoff_preview_loop_summary_line_part3(s: SwitcherFourViewFocusedHandoffPreviewLoopSummary) -> Seq<char> {
    " slot_diagnostics="@
        + pipe_joined(s.slot_diagnostics)
        + " clean_output_render_result_kind="@
        + s.clean_output_render_result_kind@
        + " window_title="@
        + s.window_title@
        + " output_width="@
        + optional_decimal(opt_u32(s.output_width))
        + " output_height="@
        + optional_decimal(opt_u32(s.output_height))
}

/// The summary line: its parts in order.
pub open spec fn focused_handoff_preview_loop_summary_line(s: SwitcherFourViewFocusedHandoffPreviewLoopSummary) -> Seq<char> {
    focused_handoff_preview_loop_summary_line_part1(s) + focused_handoff_preview_loop_summary_line_part2(s) + focused_handoff_preview_loop_summary_line_part3(s)
}

fn format_focused_handoff_preview_loop_summary_line_part1(s: &SwitcherFourViewFocusedHandoffPreviewLoopSummary) -> (r: String)
    ensures
        r@ == focused_handoff_preview_loop_summary_line_part1(*s),
{
    let mut text = String::new();
    push_str(&mut text, "switcher four-view focused handoff preview loop command_name=--four-view-focused-handoff-preview-loop real_handoff=true real_slot_count=4 view_state=Focused focused_slot_index=");
    push_decimal(&mut text, s.focused_slot_index as u128);
    push_str(&mut text, " pipe_name=");
    push_str(&mut text, s.pipe_name.as_str());
    push_str(&mut text, " actual_pipe_path=");
    push_str(&mut text, s.actual_pipe_path.as_str());
    push_str(&mut text, " client0_id=");
    push_str(&mut text, s.client0_id.as_str());
    push_str(&mut text, " run0_id=");
    push_str(&mut text, s.run0_id.as_str());
    push_str(&mut text, " client1_id=");
    push_str(&mut text, s.client1_id.as_str());
    push_str(&mut text, " run1_id=");
    push_str(&mut text, s.run1_id.as_str());
    push_str(&mut text, " client2_id=");
    push_str(&mut text, s.client2_id.as_str());
    push_str(&mut text, " run2_id=");
    push_str(&mut text, s.run2_id.as_str());
    push_str(&mut text, " client3_id=");
    push_str(&mut text, s.client3_id.as_str());
    assert(text@ =~= focused_handoff_preview_loop_summary_line_part1(*s));
    text
}

fn format_focused_handoff_preview_loop_summary_line_part2(s: &SwitcherFourViewFocusedHandoffPreviewLoopSummary) -> (r: String)
    ensures
        r@ == focused_handoff_preview_loop_summary_line_part2(*s),
{
    let mut text = String::new();
    push_str(&mut text, " run3_id=");
    push_str(&mut text, s.run3_id.as_str());
    push_str(&mut text, " focused_client_id=");
    push_str(&mut text, s.focused_client_id.as_str());
    push_str(&mut text, " focused_run_id=");
    push_str(&mut text, s.focused_run_id.as_str());
    push_str(&mut text, " focused_result_kind=");
    push_str(&mut text, s.focused_result_kind.as_str());
    push_str(&mut text, " frames_attempted=");
    push_decimal(&mut text, s.frames_attempted as u128);
    push_str(&mut text, " frames_rendered=");
    push_decimal(&mut text, s.frames_rendered as u128);
    push_str(&mut text, " render_failures=");
    push_decimal(&mut text, s.render_failures as u128);
    push_str(&mut text, " scheduler_status=");
    push_str(&mut text, s.scheduler_status.as_str());
    push_str(&mut text, " slot_bindings=");
    push_pipe_joined(&mut text, &s.slot_bindings);
    push_str(&mut text, " slot_result_kinds=");
    push_pipe_joined(&mut text, &s.slot_result_kinds);
    assert(text@ =~= focused_handoff_preview_loop_summary_line_part2(*s));
    text
}

fn format_focused_handoff_preview_loop_summary_line_part3(s: &SwitcherFourViewFocusedHandoffPreviewLoopSummary) -> (r: String)
    ensures
        r@ == focused_handoff_preview_loop_summary_line_part3(*s),
{
    let mut text = String::new();
    push_str(&mut text, " slot_diagnostics=");
    push_pipe_joined(&mut text, &s.slot_diagnostics);
    push_str(&mut text, " clean_output_render_result_kind=");
    push_str(&mut text, s.clean_output_render_result_kind.as_str());
    push_str(&mut text, " window_title=");
    push_str(&mut text, s.window_title.as_str());
    push_str(&mut text, " output_width=");
    push_opt_u32(&mut text, s.output_width);
    push_str(&mut text, " output_height=");
    push_opt_u32(&mut text, s.output_height);
    assert(text@ =~= focused_handoff_preview_loop_summary_line_part3(*s));
    text
}

/// Formats the summary line of the focused handoff preview loop.
pub fn format_four_view_focused_handoff_preview_loop_summary(summary: &SwitcherFourViewFocusedHandoffPreviewLoopSummary) -> (r: String)
    ensures
        r@ == focused_handoff_preview_loop_summary_line(*summary),
{
    let mut text = String::new();
    let part = format_focused_handoff_preview_loop_summary_line_part1(summary);
    push_str(&mut text, part.as_str());
    let part = format_focused_handoff_preview_loop_summary_line_part2(summary);
    push_str(&mut text, part.as_str());
    let part = format_focused_handoff_preview_loop_summary_line_part3(summary);
    push_str(&mut text, part.as_str());
    assert(text@ =~= focused_handoff_preview_loop_summary_line(*summary));
    text
}

/// Part 1 of the summary line.
pub open spec fn controlled_preview_command_summary_line_part1(s: SwitcherFourViewControlledPreviewCommandSummary) -> Seq<char> {
    "switcher four-view controlled handoff preview command command_name=--four-view-controlled-handoff-preview-loop command_index="@
        + decimal(s.command_index as nat)
        + " control_command_name="@
        + s.control_command_name@
        + " current_view_state="@
        + view_state_text(s.current_view_state)
        + " view_render_mode="@
        + s.view_render_mode@
        + " output_layout="@
        + s.output_layout@
        + " requested_transition="@
        + s.requested_transition@
        + " transition_result="@
        + s.transition_result@
        + " selected_slot_result="@
        + s.selected_slot_result@
        + " rendered_slot_count="@
        + decimal(s.rendered_slot_count as nat)
        + " focused_slot_index="@
        + optional_decimal(opt_usize(s.focused_slot_index))
}

/// Part 2 of the summary line.
pub open spec fn controlled_preview_command_summary_line_part2(s: SwitcherFourViewControlledPreviewCommandSummary) -> Seq<char> {
    " frames_rendered="@
        + decimal(s.frames_rendered as nat)
        + " render_failures="@
        + decimal(s.render_failures as nat)
        + " scheduler_status="@
        + s.scheduler_status@
        + " clean_output_render_result_kind="@
        + s.clean_output_render_result_kind@
        + " all_view_render_result_kind="@
        + s.all_view_render_result_kind@
        + " command_parse_error="@
        + sanitized(s.command_parse_error@)
        + " exit_reason="@
        + s.exit_reason@
}

/// The summary line: its parts in order.
pub open spec fn controlled_preview_command_summary_line(s: SwitcherFourViewControlledPreviewCommandSummary) -> Seq<char> {
    controlled_preview_command_summary_line_part1(s) + controlled_preview_command_summary_line_part2(s)
}

fn format_controlled_preview_command_summary_line_part1(s: &SwitcherFourViewControlledPreviewCommandSummary) -> (r: String)
    ensures
        r@ == controlled_preview_command_summary_line_part1(*s),
{
    let mut text = String::new();
    push_str(&mut text, "switcher four-view controlled handoff preview command command_name=--four-view-controlled-handoff-preview-loop command_index=");
    push_decimal(&mut text, s.command_index as u128);
    push_str(&mut text, " control_command_name=");
    push_str(&mut text, s.control_command_name.as_str());
    push_str(&mut text, " current_view_state=");
    push_view_state(&mut text, s.current_view_state);
    push_str(&mut text, " view_render_mode=");
    push_str(&mut text, s.view_render_mode.as_str());
    push_str(&mut text, " output_layout=");
    push_str(&mut text, s.output_layout.as_str());
    push_str(&mut text, " requested_transition=");
    push_str(&mut text, s.requested_transition.as_str());
    push_str(&mut text, " transition_result=");
    push_str(&mut text, s.transition_result.as_str());
    push_str(&mut text, " selected_slot_result=");
    push_str(&mut text, s.selected_slot_result.as_str());
    push_str(&mut text, " rendered_slot_count=");
    push_decimal(&mut text, s.rendered_slot_count as u128);
    push_str(&mut text, " focused_slot_index=");
    push_opt_usize(&mut text, s.focused_slot_index);
    assert(text@ =~= controlled_preview_command_summary_line_part1(*s));
    text
}

fn format_controlled_preview_command_summary_line_part2(s: &SwitcherFourViewControlledPreviewCommandSummary) -> (r: String)
    ensures
        r@ == controlled_preview_command_summary_line_part2(*s),
{
    let mut text = String::new();
    push_str(&mut text, " frames_rendered=");
    push_decimal(&mut text, s.frames_rendered as u128);
    push_str(&mut text, " render_failures=");
    push_decimal(&mut text, s.render_failures as u128);
    push_str(&mut text, " scheduler_status=");
    push_str(&mut text, s.scheduler_status.as_str());
    push_str(&mut text, " clean_output_render_result_kind=");
    push_str(&mut text, s.clean_output_render_result_kind.as_str());
    push_str(&mut text, " all_view_render_result_kind=");
    push_str(&mut text, s.all_view_render_result_kind.as_str());
    push_str(&mut text, " command_parse_error=");
    push_sanitized(&mut text, s.command_parse_error.as_str());
    push_str(&mut text, " exit_reason=");
    push_str(&mut text, s.exit_reason.as_str());
    assert(text@ =~= controlled_preview_command_summary_line_part2(*s));
    text
}

/// Formats the summary line of one command of the controlled preview loop.
pub fn format_four_view_controlled_handoff_preview_command_summary(summary: &SwitcherFourViewControlledPreviewCommandSummary) -> (r: String)
    ensures
        r@ == controlled_preview_command_summary_line(*summary),
{
    let mut text = String::new();
    let part = format_controlled_preview_command_summary_line_part1(summary);
    push_str(&mut text, part.as_str());
    let part = format_controlled_preview_command_summary_line_part2(summary);
    push_str(&mut text, part.as_str());
    assert(text@ =~= controlled_preview_command_summary_line(*summary));
    text
}

/// What the controlled handoff preview loop reports.
#[derive(Debug, Clone, PartialEq, Eq)]
pub struct SwitcherFourViewControlledHandoffPreviewLoopSummary {
    pub pipe_name: String,
    pub actual_pipe_path: String,
    pub client0_id: String,
    pub run0_id: String,
    pub client1_id: String,
    pub run1_id: String,
    pub client2_id: String,
    pub run2_id: String,
    pub client3_id: String,
    pub run3_id: String,
    pub max_ticks_per_command: u32,
    pub command_source: String,
    pub command_summaries: Vec<SwitcherFourViewControlledPreviewCommandSummary>,
    pub final_view_state: SwitcherFourViewControlledPreviewViewState,
    pub commands_processed: u32,
    pub commands_rejected: u32,
    pub view_render_mode: String,
    pub output_layout: String,
    pub rendered_slot_count: u32,
    pub focused_slot_index: Option<usize>,
    pub frames_rendered: u32,
    pub render_failures: u32,
    /// The scheduler status, by the name of its variant.
    pub scheduler_status: String,
    pub slot_bindings: [String; 4],
    pub slot_result_kinds: [String; 4],
    pub slot_diagnostics: [String; 4],
    pub clean_output_render_result_kind: String,
    pub all_view_render_result_kind: String,
    pub window_title: String,
    pub output_width: Option<u32>,
    pub output_height: Option<u32>,
    pub exit_reason: String,
}

/// Part 1 of the summary line.
pub open spec fn controlled_handoff_preview_loop_summary_line_part1(s: SwitcherFourViewControlledHandoffPreviewLoopSummary) -> Seq<char> {
    "switcher four-view controlled handoff preview loop command_name=--four-view-controlled-handoff-preview-loop real_handoff=true real_slot_count=4 pipe_name="@
        + s.pipe_name@
        + " actual_pipe_path="@
        + s.actual_pipe_path@
        + " client0_id="@
        + s.client0_id@
        + " run0_id="@
        + s.run0_id@
        + " client1_id="@
        + s.client1_id@
        + " run1_id="@
        + s.run1_id@
        + " client2_id="@
        + s.client2_id@
        + " run2_id="@
        + s.run2_id@
        + " client3_id="@
        + s.client3_id@
        + " run3_id="@
        + s.run3_id@
}

/// Part 2 of the summary line.
pub open spec fn controlled_handoff_preview_loop_summary_line_part2(s: SwitcherFourViewControlledHandoffPreviewLoopSummary) -> Seq<char> {
    " command_source="@
        + s.command_source@
        + " max_ticks_per_command="@
        + decimal(s.max_ticks_per_command as nat)
        + " commands_processed="@
        + decimal(s.commands_processed as nat)
        + " commands_rejected="@
        + decimal(s.commands_rejected as nat)
        + " current_view_state="@
        + view_state_text(s.final_view_state)
        + " view_render_mode="@
        + s.view_render_mode@
        + " output_layout="@
        + s.output_layout@
        + " rendered_slot_count="@
        + decimal(s.rendered_slot_count as nat)
        + " focused_slot_index="@
        + optional_decimal(opt_usize(s.focused_slot_index))
        + " frames_rendered="@
        + decimal(s.frames_rendered as nat)
}

/// Part 3 of the summary line.
pub open spec fn controlled_handoff_preview_loop_summary_line_part3(s: SwitcherFourViewControlledHandoffPreviewLoopSummary) -> Seq<char> {
    " render_failures="@
        + decimal(s.render_failures as nat)
        + " scheduler_status="@
        + s.scheduler_status@
        + " slot_bindings="@
        + pipe_joined(s.slot_bindings)
        + " slot_result_kinds="@
        + pipe_joined(s.slot_result_kinds)
        + " slot_diagnostics="@
        + pipe_joined(s.slot_diagnostics)
        + " clean_output_render_result_kind="@
        + s.clean_output_render_result_kind@
        + " all_view_render_result_kind="@
        + s.all_view_render_result_kind@
        + " window_title="@
        + s.window_title@
        + " output_width="@
        + optional_decimal(opt_u32(s.output_width))
        + " output_height="@
        + optional_decimal(opt_u32(s.output_height))
}

/// Part 4 of the summary line.
pub open spec fn controlled_handoff_preview_loop_summary_line_part4(s: SwitcherFourViewControlledHandoffPreviewLoopSummary) -> Seq<char> {
    " exit_reason="@
        + s.exit_reason@
}

/// The summary line: its parts in order.
pub open spec fn controlled_handoff_preview_loop_summary_line(s: SwitcherFourViewControlledHandoffPreviewLoopSummary) -> Seq<char> {
    controlled_handoff_preview_loop_summary_line_part1(s) + controlled_handoff_preview_loop_summary_line_part2(s) + controlled_handoff_preview_loop_summary_line_part3(s) + controlled_handoff_preview_loop_summary_line_part4(s)
}

fn format_controlled_handoff_preview_loop_summary_line_part1(s: &SwitcherFourViewControlledHandoffPreviewLoopSummary) -> (r: String)
    ensures
        r@ == controlled_handoff_preview_loop_summary_line_part1(*s),
{
    let mut text = String::new();
    push_str(&mut text, "switcher four-view controlled handoff preview loop command_name=--four-view-controlled-handoff-preview-loop real_handoff=true real_slot_count=4 pipe_name=");
    push_str(&mut text, s.pipe_name.as_str());
    push_str(&mut text, " actual_pipe_path=");
    push_str(&mut text, s.actual_pipe_path.as_str());
    push_str(&mut text, " client0_id=");
    push_str(&mut text, s.client0_id.as_str());
    push_str(&mut text, " run0_id=");
    push_str(&mut text, s.run0_id.as_str());
    push_str(&mut text, " client1_id=");
    push_str(&mut text, s.client1_id.as_str());
    push_str(&mut text, " run1_id=");
    push_str(&mut text, s.run1_id.as_str());
    push_str(&mut text, " client2_id=");
    push_str(&mut text, s.client2_id.as_str());
    push_str(&mut text, " run2_id=");
    push_str(&mut text, s.run2_id.as_str());
    push_str(&mut text, " client3_id=");
    push_str(&mut text, s.client3_id.as_str());
    push_str(&mut text, " run3_id=");
    push_str(&mut text, s.run3_id.as_str());
    assert(text@ =~= controlled_handoff_preview_loop_summary_line_part1(*s));
    text
}

fn format_controlled_handoff_preview_loop_summary_line_part2(s: &SwitcherFourViewControlledHandoffPreviewLoopSummary) -> (r: String)
    ensures
        r@ == controlled_handoff_preview_loop_summary_line_part2(*s),
{
    let mut text = String::new();
    push_str(&mut text, " command_source=");
    push_str(&mut text, s.command_source.as_str());
    push_str(&mut text, " max_ticks_per_command=");
    push_decimal(&mut text, s.max_ticks_per_command as u128);
    push_str(&mut text, " commands_processed=");
    push_decimal(&mut text, s.commands_processed as u128);
    push_str(&mut text, " commands_rejected=");
    push_decimal(&mut text, s.commands_rejected as u128);
    push_str(&mut text, " current_view_state=");
    push_view_state(&mut text, s.final_view_state);
    push_str(&mut text, " view_render_mode=");
    push_str(&mut text, s.view_render_mode.as_str());
    push_str(&mut text, " output_layout=");
    push_str(&mut text, s.output_layout.as_str());
    push_str(&mut text, " rendered_slot_count=");
    push_decimal(&mut text, s.rendered_slot_count as u128);
    push_str(&mut text, " focused_slot_index=");
    push_opt_usize(&mut text, s.focused_slot_index);
    push_str(&mut text, " frames_rendered=");
    push_decimal(&mut text, s.frames_rendered as u128);
    assert(text@ =~= controlled_handoff_preview_loop_summary_line_part2(*s));
    text
}

fn format_controlled_handoff_preview_loop_summary_line_part3(s: &SwitcherFourViewControlledHandoffPreviewLoopSummary) -> (r: String)
    ensures
        r@ == controlled_handoff_preview_loop_summary_line_part3(*s),
{
    let mut text = String::new();
    push_str(&mut text, " render_failures=");
    push_decimal(&mut text, s.render_failures as u128);
    push_str(&mut text, " scheduler_status=");
    push_str(&mut text, s.scheduler_status.as_str());
    push_str(&mut text, " slot_bindings=");
    push_pipe_joined(&mut text, &s.slot_bindings);
    push_str(&mut text, " slot_result_kinds=");
    push_pipe_joined(&mut text, &s.slot_result_kinds);
    push_str(&mut text, " slot_diagnostics=");
    push_pipe_joined(&mut text, &s.slot_diagnostics);
    push_str(&mut text, " clean_output_render_result_kind=");
    push_str(&mut text, s.clean_output_render_result_kind.as_str());
    push_str(&mut text, " all_view_render_result_kind=");
    push_str(&mut text, s.all_view_render_result_kind.as_str());
    push_str(&mut text, " window_title=");
    push_str(&mut text, s.window_title.as_str());
    push_str(&mut text, " output_width=");
    push_opt_u32(&mut text, s.output_width);
    push_str(&mut text, " output_height=");
    push_opt_u32(&mut text, s.output_height);
    assert(text@ =~= controlled_handoff_preview_loop_summary_line_part3(*s));
    text
}

fn format_controlled_handoff_preview_loop_summary_line_part4(s: &SwitcherFourViewControlledHandoffPreviewLoopSummary) -> (r: String)
    ensures
        r@ == controlled_handoff_preview_loop_summary_line_part4(*s),
{
    let mut text = String::new();
    push_str(&mut text, " exit_reason=");
    push_str(&mut text, s.exit_reason.as_str());
    assert(text@ =~= controlled_handoff_preview_loop_summary_line_part4(*s));
    text
}

/// Formats the summary line of the controlled handoff preview loop.
pub fn format_four_view_controlled_handoff_preview_loop_summary(summary: &SwitcherFourViewControlledHandoffPreviewLoopSummary) -> (r: String)
    ensures
        r@ == controlled_handoff_preview_loop_summary_line(*summary),
{
    let mut text = String::new();
    let part = format_controlled_handoff_preview_loop_summary_line_part1(summary);
    push_str(&mut text, part.as_str());
    let part = format_controlled_handoff_preview_loop_summary_line_part2(summary);
    push_str(&mut text, part.as_str());
    let part = format_controlled_handoff_preview_loop_summary_line_part3(summary);
    push_str(&mut text, part.as_str());
    let part = format_controlled_handoff_preview_loop_summary_line_part4(summary);
    push_str(&mut text, part.as_str());
    assert(text@ =~= controlled_handoff_preview_loop_summary_line(*summary));
    text
}

/// What the two-real handoff preview loop reports. The rates and averages
/// are written by the caller, as decimal text.
#[derive(Debug, Clone, PartialEq, Eq)]
pub struct SwitcherFourViewTwoRealHandoffPreviewLoopSummary {
    pub real_slot0_index: usize,
    pub real_slot1_index: usize,
    pub pipe_name: String,
    pub actual_pipe_path: String,
    pub preview_mode: String,
    pub read_mode: String,
    pub client0_id: String,
    pub run0_id: String,
    pub client1_id: String,
    pub run1_id: String,
    pub frames_attempted: u32,
    pub frames_rendered: u32,
    pub render_failures: u32,
    pub elapsed_ms: u128,
    pub target_fps: u32,
    pub configured_frame_interval_ms: u128,
    pub effective_attempt_fps: String,
    pub effective_render_fps: String,
    pub first_render_attempt_index: Option<u32>,
    pub first_render_elapsed_ms: Option<u128>,
    pub rendered_after_first_render: u32,
    pub effective_render_fps_after_first_render: String,
    pub no_render_before_first_render: u32,
    pub selected_count: u32,
    pub no_frame_count: u32,
    pub handoff_error_count: u32,
    pub decode_attempt_count: u32,
    pub decode_success_count: u32,
    pub render_success_count: u32,
    pub render_failure_count: u32,
    pub unchanged_frame_reuse_count: u32,
    pub skipped_decode_unchanged_frame_count: u32,
    pub redecoded_same_frame_count: u32,
    pub decode_elapsed_ms: u128,
    pub decode_process_spawn_elapsed_ms: u128,
    pub decode_input_write_elapsed_ms: u128,
    pub decode_input_payload_bytes_total: usize,
    pub decode_output_read_elapsed_ms: u128,
    pub decode_output_read_exact_elapsed_ms: u128,
    pub decode_output_vec_resize_elapsed_ms: u128,
    pub decode_process_wait_elapsed_ms: u128,
    pub decode_pixel_convert_elapsed_ms: u128,
    pub decode_buffer_allocation_count: u32,
    pub decode_output_bytes_total: usize,
    pub decode_stdout_expected_bytes_total: usize,
    pub decode_cached_frame_reuse_count: u32,
    pub decode_cache_miss_count: u32,
    pub decoded_buffer_clone_count: u32,
    pub decode_cache_hit_clone_count: u32,
    pub decode_cache_store_clone_count: u32,
    pub decoded_buffer_clone_elapsed_ms: u128,
    pub composed_buffer_clone_count: u32,
    pub decode_output_buffer_reuse_count: u32,
    pub persistent_decode_enabled: bool,
    pub persistent_decode_attempt_count: u32,
    pub persistent_decode_success_count: u32,
    pub persistent_decode_failure_count: u32,
    pub persistent_decode_fallback_count: u32,
    pub persistent_decode_process_spawn_count: u32,
    pub persistent_decode_process_restart_count: u32,
    pub persistent_decode_stdin_write_elapsed_ms: u128,
    pub persistent_decode_stdout_read_elapsed_ms: u128,
    pub persistent_decode_stdout_read_exact_elapsed_ms: u128,
    pub persistent_decode_output_bytes_total: usize,
    pub persistent_decode_last_error: String,
    pub one_shot_decode_fallback_count: u32,
    pub handoff_elapsed_ms: u128,
    pub render_elapsed_ms: u128,
    pub avg_decode_elapsed_ms: String,
    pub avg_decode_input_write_elapsed_ms: String,
    pub avg_decode_output_read_elapsed_ms: String,
    pub avg_decode_process_spawn_elapsed_ms: String,
    pub avg_handoff_elapsed_ms: String,
    pub avg_render_elapsed_ms: String,
    pub loop_total_elapsed_ms: u128,
    pub attempt_body_elapsed_ms: u128,
    pub loop_sleep_elapsed_ms: u128,
    pub frame_interval_wait_elapsed_ms: u128,
    pub event_pump_elapsed_ms: u128,
    pub window_update_elapsed_ms: u128,
    pub render_prepare_elapsed_ms: u128,
    pub render_buffer_cpu_scale_copy_elapsed_ms: u128,
    pub render_buffer_copy_elapsed_ms: u128,
    pub render_buffer_materialization_elapsed_ms: u128,
    pub render_buffer_scale_prepare_elapsed_ms: u128,
    pub render_buffer_scale_loop_elapsed_ms: u128,
    pub render_buffer_output_copy_elapsed_ms: u128,
    pub render_buffer_resize_elapsed_ms: u128,
    pub render_buffer_clear_elapsed_ms: u128,
    pub render_buffer_passthrough_count: u32,
    pub render_buffer_same_size_copy_count: u32,
    pub render_buffer_half_scale_count: u32,
    pub render_buffer_generic_scale_count: u32,
    pub render_buffer_reuse_count: u32,
    pub render_buffer_allocation_count: u32,
    pub render_buffer_bytes_copied_total: usize,
    pub render_backend_wait_elapsed_ms: u128,
    pub gdi_invalidate_elapsed_ms: u128,
    pub gdi_paint_wait_elapsed_ms: u128,
    pub gdi_wm_paint_elapsed_ms: u128,
    pub gdi_stretchdibits_elapsed_ms: u128,
    pub texture_upload_elapsed_ms: u128,
    pub window_present_elapsed_ms: u128,
    pub vsync_or_present_block_elapsed_ms: u128,
    pub quad_view_compose_elapsed_ms: u128,
    pub quad_view_compose_attempt_count: u32,
    pub quad_view_compose_success_count: u32,
    pub quad_view_compose_skipped_unchanged_count: u32,
    pub quad_view_composed_frame_reuse_count: u32,
    pub quad_view_visual_unchanged_count: u32,
    pub quad_view_visual_changed_count: u32,
    pub materialization_reason_first_render_count: u32,
    pub materialization_reason_visual_changed_count: u32,
    pub materialization_reason_previous_output_missing_count: u32,
    pub materialization_reason_profile_or_size_mismatch_count: u32,
    pub materialization_reason_force_render_count: u32,
    pub materialization_reason_unknown_count: u32,
    pub slot0_frame_id_changed_count: u32,
    pub slot1_frame_id_changed_count: u32,
    pub slot2_frame_id_changed_count: u32,
    pub slot3_frame_id_changed_count: u32,
    pub slot0_selected_source_changed_count: u32,
    pub slot1_selected_source_changed_count: u32,
    pub slot2_selected_source_changed_count: u32,
    pub slot3_selected_source_changed_count: u32,
    pub placeholder_visual_changed_count: u32,
    pub quad_view_incremental_update_count: u32,
    pub quad_view_full_compose_count: u32,
    pub quad_view_changed_slot_update_count: u32,
    pub quad_view_reused_slot_count: u32,
    pub quad_view_allocation_count: u32,
    pub avg_render_buffer_cpu_scale_copy_elapsed_ms: String,
    pub avg_render_buffer_materialization_elapsed_ms: String,
    pub avg_gdi_paint_wait_elapsed_ms: String,
    pub avg_gdi_wm_paint_elapsed_ms: String,
    pub avg_gdi_stretchdibits_elapsed_ms: String,
    pub avg_quad_view_incremental_update_elapsed_ms: String,
    pub avg_quad_view_compose_elapsed_ms: String,
    pub render_call_elapsed_ms: u128,
    pub render_input_unchanged_count: u32,
    pub render_reuse_frame_count: u32,
    pub unaccounted_elapsed_ms: u128,
    pub avg_attempt_elapsed_ms: String,
    pub max_attempt_elapsed_ms: u128,
    pub slow_attempt_count: u32,
    pub slow_attempt_threshold_ms: u128,
    /// The scheduler status, by the name of its variant.
    pub scheduler_status: String,
    /// Each slot as `index:client/run`.
    pub slot_bindings: [String; 4],
    pub slot_result_kinds: [String; 4],
    pub slot_diagnostics: [String; 4],
    pub clean_output_render_result_kind: String,
    pub window_title: String,
    pub output_width: Option<u32>,
    pub output_height: Option<u32>,
}

/// Part 1 of the summary line.
pub open spec fn two_real_handoff_preview_loop_summary_line_part1(s: SwitcherFourViewTwoRealHandoffPreviewLoopSummary) -> Seq<char> {
    "switcher four-view two-real handoff preview loop command_name=--four-view-two-real-handoff-preview-loop real_handoff=true real_slot_count=2 real_slot0_index="@
        + decimal(s.real_slot0_index as nat)
        + " real_slot1_index="@
        + decimal(s.real_slot1_index as nat)
        + " pipe_name="@
        + s.pipe_name@
        + " actual_pipe_path="@
        + s.actual_pipe_path@
        + " preview_mode="@
        + s.preview_mode@
        + " read_mode="@
        + s.read_mode@
        + " client0_id="@
        + s.client0_id@
        + " run0_id="@
        + s.run0_id@
        + " client1_id="@
        + s.client1_id@
        + " run1_id="@
        + s.run1_id@
}

/// Part 2 of the summary line.
pub open spec fn two_real_handoff_preview_loop_summary_line_part2(s: SwitcherFourViewTwoRealHandoffPreviewLoopSummary) -> Seq<char> {
    " frames_attempted="@
        + decimal(s.frames_attempted as nat)
        + " frames_rendered="@
        + decimal(s.frames_rendered as nat)
        + " render_failures="@
        + decimal(s.render_failures as nat)
        + " elapsed_ms="@
        + decimal(s.elapsed_ms as nat)
        + " target_fps="@
        + decimal(s.target_fps as nat)
        + " configured_frame_interval_ms="@
        + decimal(s.configured_frame_interval_ms as nat)
        + " effective_attempt_fps="@
        + s.effective_attempt_fps@
        + " effective_render_fps="@
        + s.effective_render_fps@
        + " first_render_attempt_index="@
        + optional_decimal(opt_u32(s.first_render_attempt_index))
        + " first_render_elapsed_ms="@
        + optional_decimal(opt_u128(s.first_render_elapsed_ms))
}

/// Part 3 of the summary line.
pub open spec fn two_real_handoff_preview_loop_summary_line_part3(s: SwitcherFourViewTwoRealHandoffPreviewLoopSummary) -> Seq<char> {
    " rendered_after_first_render="@
        + decimal(s.rendered_after_first_render as nat)
        + " effective_render_fps_after_first_render="@
        + s.effective_render_fps_after_first_render@
        + " no_render_before_first_render="@
        + decimal(s.no_render_before_first_render as nat)
        + " selected_count="@
        + decimal(s.selected_count as nat)
        + " no_frame_count="@
        + decimal(s.no_frame_count as nat)
        + " handoff_error_count="@
        + decimal(s.handoff_error_count as nat)
        + " decode_attempt_count="@
        + decimal(s.decode_attempt_count as nat)
        + " decode_success_count="@
        + decimal(s.decode_success_count as nat)
        + " render_success_count="@
        + decimal(s.render_success_count as nat)
        + " render_failure_count="@
        + decimal(s.render_failure_count as nat)
}

/// Part 4 of the summary line.
pub open spec fn two_real_handoff_preview_loop_summary_line_part4(s: SwitcherFourViewTwoRealHandoffPreviewLoopSummary) -> Seq<char> {
    " unchanged_frame_reuse_count="@
        + decimal(s.unchanged_frame_reuse_count as nat)
        + " skipped_decode_unchanged_frame_count="@
        + decimal(s.skipped_decode_unchanged_frame_count as nat)
        + " redecoded_same_frame_count="@
        + decimal(s.redecoded_same_frame_count as nat)
        + " decode_elapsed_ms="@
        + decimal(s.decode_elapsed_ms as nat)
        + " decode_process_spawn_elapsed_ms="@
        + decimal(s.decode_process_spawn_elapsed_ms as nat)
        + " decode_input_write_elapsed_ms="@
        + decimal(s.decode_input_write_elapsed_ms as nat)
        + " decode_input_payload_bytes_total="@
        + decimal(s.decode_input_payload_bytes_total as nat)
        + " decode_output_read_elapsed_ms="@
        + decimal(s.decode_output_read_elapsed_ms as nat)
        + " decode_output_read_exact_elapsed_ms="@
        + decimal(s.decode_output_read_exact_elapsed_ms as nat)
        + " decode_output_vec_resize_elapsed_ms="@
        + decimal(s.decode_output_vec_resize_elapsed_ms as nat)
}

/// Part 5 of the summary line.
pub open spec fn two_real_handoff_preview_loop_summary_line_part5(s: SwitcherFourViewTwoRealHandoffPreviewLoopSummary) -> Seq<char> {
    " decode_process_wait_elapsed_ms="@
        + decimal(s.decode_process_wait_elapsed_ms as nat)
        + " decode_pixel_convert_elapsed_ms="@
        + decimal(s.decode_pixel_convert_elapsed_ms as nat)
        + " decode_buffer_allocation_count="@
        + decimal(s.decode_buffer_allocation_count as nat)
        + " decode_output_bytes_total="@
        + decimal(s.decode_output_bytes_total as nat)
        + " decode_stdout_expected_bytes_total="@
        + decimal(s.decode_stdout_expected_bytes_total as nat)
        + " decode_cached_frame_reuse_count="@
        + decimal(s.decode_cached_frame_reuse_count as nat)
        + " decode_cache_miss_count="@
        + decimal(s.decode_cache_miss_count as nat)
        + " decoded_buffer_clone_count="@
        + decimal(s.decoded_buffer_clone_count as nat)
        + " decode_cache_hit_clone_count="@
        + decimal(s.decode_cache_hit_clone_count as nat)
        + " decode_cache_store_clone_count="@
        + decimal(s.decode_cache_store_clone_count as nat)
}

/// Part 6 of the summary line.
pub open spec fn two_real_handoff_preview_loop_summary_line_part6(s: SwitcherFourViewTwoRealHandoffPreviewLoopSummary) -> Seq<char> {
    " decoded_buffer_clone_elapsed_ms="@
        + decimal(s.decoded_buffer_clone_elapsed_ms as nat)
        + " composed_buffer_clone_count="@
        + decimal(s.composed_buffer_clone_count as nat)
        + " decode_output_buffer_reuse_count="@
        + decimal(s.decode_output_buffer_reuse_count as nat)
        + " persistent_decode_enabled="@
        + bool_text(s.persistent_decode_enabled)
        + " persistent_decode_attempt_count="@
        + decimal(s.persistent_decode_attempt_count as nat)
        + " persistent_decode_success_count="@
        + decimal(s.persistent_decode_success_count as nat)
        + " persistent_decode_failure_count="@
        + decimal(s.persistent_decode_failure_count as nat)
        + " persistent_decode_fallback_count="@
        + decimal(s.persistent_decode_fallback_count as nat)
        + " persistent_decode_process_spawn_count="@
        + decimal(s.persistent_decode_process_spawn_count as nat)
        + " persistent_decode_process_restart_count="@
        + decimal(s.persistent_decode_process_restart_count as nat)
}

/// Part 7 of the summary line.
pub open spec fn two_real_handoff_preview_loop_summary_line_part7(s: SwitcherFourViewTwoRealHandoffPreviewLoopSummary) -> Seq<char> {
    " persistent_decode_stdin_write_elapsed_ms="@
        + decimal(s.persistent_decode_stdin_write_elapsed_ms as nat)
        + " persistent_decode_stdout_read_elapsed_ms="@
        + decimal(s.persistent_decode_stdout_read_elapsed_ms as nat)
        + " persistent_decode_stdout_read_exact_elapsed_ms="@
        + decimal(s.persistent_decode_stdout_read_exact_elapsed_ms as nat)
        + " persistent_decode_output_bytes_total="@
        + decimal(s.persistent_decode_output_bytes_total as nat)
        + " persistent_decode_last_error="@
        + sanitized(s.persistent_decode_last_error@)
        + " one_shot_decode_fallback_count="@
        + decimal(s.one_shot_decode_fallback_count as nat)
        + " handoff_elapsed_ms="@
        + decimal(s.handoff_elapsed_ms as nat)
        + " render_elapsed_ms="@
        + decimal(s.render_elapsed_ms as nat)
        + " avg_decode_elapsed_ms="@
        + s.avg_decode_elapsed_ms@
        + " avg_decode_input_write_elapsed_ms="@
        + s.avg_decode_input_write_elapsed_ms@
}

/// Part 8 of the summary line.
pub open spec fn two_real_handoff_preview_loop_summary_line_part8(s: SwitcherFourViewTwoRealHandoffPreviewLoopSummary) -> Seq<char> {
    " avg_decode_output_read_elapsed_ms="@
        + s.avg_decode_output_read_elapsed_ms@
        + " avg_decode_process_spawn_elapsed_ms="@
        + s.avg_decode_process_spawn_elapsed_ms@
        + " avg_handoff_elapsed_ms="@
        + s.avg_handoff_elapsed_ms@
        + " avg_render_elapsed_ms="@
        + s.avg_render_elapsed_ms@
        + " loop_total_elapsed_ms="@
        + decimal(s.loop_total_elapsed_ms as nat)
        + " attempt_body_elapsed_ms="@
        + decimal(s.attempt_body_elapsed_ms as nat)
        + " loop_sleep_elapsed_ms="@
        + decimal(s.loop_sleep_elapsed_ms as nat)
        + " frame_interval_wait_elapsed_ms="@
        + decimal(s.frame_interval_wait_elapsed_ms as nat)
        + " event_pump_elapsed_ms="@
        + decimal(s.event_pump_elapsed_ms as nat)
        + " window_update_elapsed_ms="@
        + decimal(s.window_update_elapsed_ms as nat)
}

/// Part 9 of the summary line.
pub open spec fn two_real_handoff_preview_loop_summary_line_part9(s: SwitcherFourViewTwoRealHandoffPreviewLoopSummary) -> Seq<char> {
    " render_prepare_elapsed_ms="@
        + decimal(s.render_prepare_elapsed_ms as nat)
        + " render_buffer_cpu_scale_copy_elapsed_ms="@
        + decimal(s.render_buffer_cpu_scale_copy_elapsed_ms as nat)
        + " render_buffer_copy_elapsed_ms="@
        + decimal(s.render_buffer_copy_elapsed_ms as nat)
        + " render_buffer_materialization_elapsed_ms="@
        + decimal(s.render_buffer_materialization_elapsed_ms as nat)
        + " render_buffer_scale_prepare_elapsed_ms="@
        + decimal(s.render_buffer_scale_prepare_elapsed_ms as nat)
        + " render_buffer_scale_loop_elapsed_ms="@
        + decimal(s.render_buffer_scale_loop_elapsed_ms as nat)
        + " render_buffer_output_copy_elapsed_ms="@
        + decimal(s.render_buffer_output_copy_elapsed_ms as nat)
        + " render_buffer_resize_elapsed_ms="@
        + decimal(s.render_buffer_resize_elapsed_ms as nat)
        + " render_buffer_clear_elapsed_ms="@
        + decimal(s.render_buffer_clear_elapsed_ms as nat)
        + " render_buffer_passthrough_count="@
        + decimal(s.render_buffer_passthrough_count as nat)
}

/// Part 10 of the summary line.
pub open spec fn two_real_handoff_preview_loop_summary_line_part10(s: SwitcherFourViewTwoRealHandoffPreviewLoopSummary) -> Seq<char> {
    " render_buffer_same_size_copy_count="@
        + decimal(s.render_buffer_same_size_copy_count as nat)
        + " render_buffer_half_scale_count="@
        + decimal(s.render_buffer_half_scale_count as nat)
        + " render_buffer_generic_scale_count="@
        + decimal(s.render_buffer_generic_scale_count as nat)
        + " render_buffer_reuse_count="@
        + decimal(s.render_buffer_reuse_count as nat)
        + " render_buffer_allocation_count="@
        + decimal(s.render_buffer_allocation_count as nat)
        + " render_buffer_bytes_copied_total="@
        + decimal(s.render_buffer_bytes_copied_total as nat)
        + " render_backend_wait_elapsed_ms="@
        + decimal(s.render_backend_wait_elapsed_ms as nat)
        + " gdi_invalidate_elapsed_ms="@
        + decimal(s.gdi_invalidate_elapsed_ms as nat)
        + " gdi_paint_wait_elapsed_ms="@
        + decimal(s.gdi_paint_wait_elapsed_ms as nat)
        + " gdi_wm_paint_elapsed_ms="@
        + decimal(s.gdi_wm_paint_elapsed_ms as nat)
}

/// Part 11 of the summary line.
pub open spec fn two_real_handoff_preview_loop_summary_line_part11(s: SwitcherFourViewTwoRealHandoffPreviewLoopSummary) -> Seq<char> {
    " gdi_stretchdibits_elapsed_ms="@
        + decimal(s.gdi_stretchdibits_elapsed_ms as nat)
        + " texture_upload_elapsed_ms="@
        + decimal(s.texture_upload_elapsed_ms as nat)
        + " window_present_elapsed_ms="@
        + decimal(s.window_present_elapsed_ms as nat)
        + " vsync_or_present_block_elapsed_ms="@
        + decimal(s.vsync_or_present_block_elapsed_ms as nat)
        + " quad_view_compose_elapsed_ms="@
        + decimal(s.quad_view_compose_elapsed_ms as nat)
        + " quad_view_compose_attempt_count="@
        + decimal(s.quad_view_compose_attempt_count as nat)
        + " quad_view_compose_success_count="@
        + decimal(s.quad_view_compose_success_count as nat)
        + " quad_view_compose_skipped_unchanged_count="@
        + decimal(s.quad_view_compose_skipped_unchanged_count as nat)
        + " quad_view_composed_frame_reuse_count="@
        + decimal(s.quad_view_composed_frame_reuse_count as nat)
        + " quad_view_visual_unchanged_count="@
        + decimal(s.quad_view_visual_unchanged_count as nat)
}

/// Part 12 of the summary line.
pub open spec fn two_real_handoff_preview_loop_summary_line_part12(s: SwitcherFourViewTwoRealHandoffPreviewLoopSummary) -> Seq<char> {
    " quad_view_visual_changed_count="@
        + decimal(s.quad_view_visual_changed_count as nat)
        + " materialization_reason_first_render_count="@
        + decimal(s.materialization_reason_first_render_count as nat)
        + " materialization_reason_visual_changed_count="@
        + decimal(s.materialization_reason_visual_changed_count as nat)
        + " materialization_reason_previous_output_missing_count="@
        + decimal(s.materialization_reason_previous_output_missing_count as nat)
        + " materialization_reason_profile_or_size_mismatch_count="@
        + decimal(s.materialization_reason_profile_or_size_mismatch_count as nat)
        + " materialization_reason_force_render_count="@
        + decimal(s.materialization_reason_force_render_count as nat)
        + " materialization_reason_unknown_count="@
        + decimal(s.materialization_reason_unknown_count as nat)
        + " slot0_frame_id_changed_count="@
        + decimal(s.slot0_frame_id_changed_count as nat)
        + " slot1_frame_id_changed_count="@
        + decimal(s.slot1_frame_id_changed_count as nat)
        + " slot2_frame_id_changed_count="@
        + decimal(s.slot2_frame_id_changed_count as nat)
}

/// Part 13 of the summary line.
pub open spec fn two_real_handoff_preview_loop_summary_line_part13(s: SwitcherFourViewTwoRealHandoffPreviewLoopSummary) -> Seq<char> {
    " slot3_frame_id_changed_count="@
        + decimal(s.slot3_frame_id_changed_count as nat)
        + " slot0_selected_source_changed_count="@
        + decimal(s.slot0_selected_source_changed_count as nat)
        + " slot1_selected_source_changed_count="@
        + decimal(s.slot1_selected_source_changed_count as nat)
        + " slot2_selected_source_changed_count="@
        + decimal(s.slot2_selected_source_changed_count as nat)
        + " slot3_selected_source_changed_count="@
        + decimal(s.slot3_selected_source_changed_count as nat)
        + " placeholder_visual_changed_count="@
        + decimal(s.placeholder_visual_changed_count as nat)
        + " quad_view_incremental_update_count="@
        + decimal(s.quad_view_incremental_update_count as nat)
        + " quad_view_full_compose_count="@
        + decimal(s.quad_view_full_compose_count as nat)
        + " quad_view_changed_slot_update_count="@
        + decimal(s.quad_view_changed_slot_update_count as nat)
        + " quad_view_reused_slot_count="@
        + decimal(s.quad_view_reused_slot_count as nat)
}

/// Part 14 of the summary line.
pub open spec fn two_real_handoff_preview_loop_summary_line_part14(s: SwitcherFourViewTwoRealHandoffPreviewLoopSummary) -> Seq<char> {
    " quad_view_allocation_count="@
        + decimal(s.quad_view_allocation_count as nat)
        + " avg_render_buffer_cpu_scale_copy_elapsed_ms="@
        + s.avg_render_buffer_cpu_scale_copy_elapsed_ms@
        + " avg_render_buffer_materialization_elapsed_ms="@
        + s.avg_render_buffer_materialization_elapsed_ms@
        + " avg_gdi_paint_wait_elapsed_ms="@
        + s.avg_gdi_paint_wait_elapsed_ms@
        + " avg_gdi_wm_paint_elapsed_ms="@
        + s.avg_gdi_wm_paint_elapsed_ms@
        + " avg_gdi_stretchdibits_elapsed_ms="@
        + s.avg_gdi_stretchdibits_elapsed_ms@
        + " avg_quad_view_incremental_update_elapsed_ms="@
        + s.avg_quad_view_incremental_update_elapsed_ms@
        + " avg_quad_view_compose_elapsed_ms="@
        + s.avg_quad_view_compose_elapsed_ms@
        + " render_call_elapsed_ms="@
        + decimal(s.render_call_elapsed_ms as nat)
        + " render_input_unchanged_count="@
        + decimal(s.render_input_unchanged_count as nat)
}

/// Part 15 of the summary line.
pub open spec fn two_real_handoff_preview_loop_summary_line_part15(s: SwitcherFourViewTwoRealHandoffPreviewLoopSummary) -> Seq<char> {
    " render_reuse_frame_count="@
        + decimal(s.render_reuse_frame_count as nat)
        + " unaccounted_elapsed_ms="@
        + decimal(s.unaccounted_elapsed_ms as nat)
        + " avg_attempt_elapsed_ms="@
        + s.avg_attempt_elapsed_ms@
        + " max_attempt_elapsed_ms="@
        + decimal(s.max_attempt_elapsed_ms as nat)
        + " slow_attempt_count="@
        + decimal(s.slow_attempt_count as nat)
        + " slow_attempt_threshold_ms="@
        + decimal(s.slow_attempt_threshold_ms as nat)
        + " scheduler_status="@
        + s.scheduler_status@
        + " slot_bindings="@
        + pipe_joined(s.slot_bindings)
        + " slot_result_kinds="@
        + pipe_joined(s.slot_result_kinds)
        + " slot_diagnostics="@
        + pipe_joined(s.slot_diagnostics)
}

/// Part 16 of the summary line.
pub open spec fn two_real_handoff_preview_loop_summary_line_part16(s: SwitcherFourViewTwoRealHandoffPreviewLoopSummary) -> Seq<char> {
    " clean_output_render_result_kind="@
        + s.clean_output_render_result_kind@
        + " window_title="@
        + s.window_title@
        + " output_width="@
        + optional_decimal(opt_u32(s.output_width))
        + " output_height="@
        + optional_decimal(opt_u32(s.output_height))
}

/// The summary line: its parts in order.
pub open spec fn two_real_handoff_preview_loop_summary_line(s: SwitcherFourViewTwoRealHandoffPreviewLoopSummary) -> Seq<char> {
    two_real_handoff_preview_loop_summary_line_part1(s) + two_real_handoff_preview_loop_summary_line_part2(s) + two_real_handoff_preview_loop_summary_line_part3(s) + two_real_handoff_preview_loop_summary_line_part4(s) + two_real_handoff_preview_loop_summary_line_part5(s) + two_real_handoff_preview_loop_summary_line_part6(s) + two_real_handoff_preview_loop_summary_line_part7(s) + two_real_handoff_preview_loop_summary_line_part8(s) + two_real_handoff_preview_loop_summary_line_part9(s) + two_real_handoff_preview_loop_summary_line_part10(s) + two_real_handoff_preview_loop_summary_line_part11(s) + two_real_handoff_preview_loop_summary_line_part12(s) + two_real_handoff_preview_loop_summary_line_part13(s) + two_real_handoff_preview_loop_summary_line_part14(s) + two_real_handoff_preview_loop_summary_line_part15(s) + two_real_handoff_preview_loop_summary_line_part16(s)
}

fn format_two_real_handoff_preview_loop_summary_line_part1(s: &SwitcherFourViewTwoRealHandoffPreviewLoopSummary) -> (r: String)
    ensures
        r@ == two_real_handoff_preview_loop_summary_line_part1(*s),
{
    let mut text = String::new();
    push_str(&mut text, "switcher four-view two-real handoff preview loop command_name=--four-view-two-real-handoff-preview-loop real_handoff=true real_slot_count=2 real_slot0_index=");
    push_decimal(&mut text, s.real_slot0_index as u128);
    push_str(&mut text, " real_slot1_index=");
    push_decimal(&mut text, s.real_slot1_index as u128);
    push_str(&mut text, " pipe_name=");
    push_str(&mut text, s.pipe_name.as_str());
    push_str(&mut text, " actual_pipe_path=");
    push_str(&mut text, s.actual_pipe_path.as_str());
    push_str(&mut text, " preview_mode=");
    push_str(&mut text, s.preview_mode.as_str());
    push_str(&mut text, " read_mode=");
    push_str(&mut text, s.read_mode.as_str());
    push_str(&mut text, " client0_id=");
    push_str(&mut text, s.client0_id.as_str());
    push_str(&mut text, " run0_id=");
    push_str(&mut text, s.run0_id.as_str());
    push_str(&mut text, " client1_id=");
    push_str(&mut text, s.client1_id.as_str());
    push_str(&mut text, " run1_id=");
    push_str(&mut text, s.run1_id.as_str());
    assert(text@ =~= two_real_handoff_preview_loop_summary_line_part1(*s));
    text
}

fn format_two_real_handoff_preview_loop_summary_line_part2(s: &SwitcherFourViewTwoRealHandoffPreviewLoopSummary) -> (r: String)
    ensures
        r@ == two_real_handoff_preview_loop_summary_line_part2(*s),
{
    let mut text = String::new();
    push_str(&mut text, " frames_attempted=");
    push_decimal(&mut text, s.frames_attempted as u128);
    push_str(&mut text, " frames_rendered=");
    push_decimal(&mut text, s.frames_rendered as u128);
    push_str(&mut text, " render_failures=");
    push_decimal(&mut text, s.render_failures as u128);
    push_str(&mut text, " elapsed_ms=");
    push_decimal(&mut text, s.elapsed_ms as u128);
    push_str(&mut text, " target_fps=");
    push_decimal(&mut text, s.target_fps as u128);
    push_str(&mut text, " configured_frame_interval_ms=");
    push_decimal(&mut text, s.configured_frame_interval_ms as u128);
    push_str(&mut text, " effective_attempt_fps=");
    push_str(&mut text, s.effective_attempt_fps.as_str());
    push_str(&mut text, " effective_render_fps=");
    push_str(&mut text, s.effective_render_fps.as_str());
    push_str(&mut text, " first_render_attempt_index=");
    push_opt_u32(&mut text, s.first_render_attempt_index);
    push_str(&mut text, " first_render_elapsed_ms=");
    push_optional_u128(&mut text, s.first_render_elapsed_ms);
    assert(text@ =~= two_real_handoff_preview_loop_summary_line_part2(*s));
    text
}

fn format_two_real_handoff_preview_loop_summary_line_part3(s: &SwitcherFourViewTwoRealHandoffPreviewLoopSummary) -> (r: String)
    ensures
        r@ == two_real_handoff_preview_loop_summary_line_part3(*s),
{
    let mut text = String::new();
    push_str(&mut text, " rendered_after_first_render=");
    push_decimal(&mut text, s.rendered_after_first_render as u128);
    push_str(&mut text, " effective_render_fps_after_first_render=");
    push_str(&mut text, s.effective_render_fps_after_first_render.as_str());
    push_str(&mut text, " no_render_before_first_render=");
    push_decimal(&mut text, s.no_render_before_first_render as u128);
    push_str(&mut text, " selected_count=");
    push_decimal(&mut text, s.selected_count as u128);
    push_str(&mut text, " no_frame_count=");
    push_decimal(&mut text, s.no_frame_count as u128);
    push_str(&mut text, " handoff_error_count=");
    push_decimal(&mut text, s.handoff_error_count as u128);
    push_str(&mut text, " decode_attempt_count=");
    push_decimal(&mut text, s.decode_attempt_count as u128);
    push_str(&mut text, " decode_success_count=");
    push_decimal(&mut text, s.decode_success_count as u128);
    push_str(&mut text, " render_success_count=");
    push_decimal(&mut text, s.render_success_count as u128);
    push_str(&mut text, " render_failure_count=");
    push_decimal(&mut text, s.render_failure_count as u128);
    assert(text@ =~= two_real_handoff_preview_loop_summary_line_part3(*s));
    text
}

fn format_two_real_handoff_preview_loop_summary_line_part4(s: &SwitcherFourViewTwoRealHandoffPreviewLoopSummary) -> (r: String)
    ensures
        r@ == two_real_handoff_preview_loop_summary_line_part4(*s),
{
    let mut text = String::new();
    push_str(&mut text, " unchanged_frame_reuse_count=");
    push_decimal(&mut text, s.unchanged_frame_reuse_count as u128);
    push_str(&mut text, " skipped_decode_unchanged_frame_count=");
    push_decimal(&mut text, s.skipped_decode_unchanged_frame_count as u128);
    push_str(&mut text, " redecoded_same_frame_count=");
    push_decimal(&mut text, s.redecoded_same_frame_count as u128);
    push_str(&mut text, " decode_elapsed_ms=");
    push_decimal(&mut text, s.decode_elapsed_ms as u128);
    push_str(&mut text, " decode_process_spawn_elapsed_ms=");
    push_decimal(&mut text, s.decode_process_spawn_elapsed_ms as u128);
    push_str(&mut text, " decode_input_write_elapsed_ms=");
    push_decimal(&mut text, s.decode_input_write_elapsed_ms as u128);
    push_str(&mut text, " decode_input_payload_bytes_total=");
    push_decimal(&mut text, s.decode_input_payload_bytes_total as u128);
    push_str(&mut text, " decode_output_read_elapsed_ms=");
    push_decimal(&mut text, s.decode_output_read_elapsed_ms as u128);
    push_str(&mut text, " decode_output_read_exact_elapsed_ms=");
    push_decimal(&mut text, s.decode_output_read_exact_elapsed_ms as u128);
    push_str(&mut text, " decode_output_vec_resize_elapsed_ms=");
    push_decimal(&mut text, s.decode_output_vec_resize_elapsed_ms as u128);
    assert(text@ =~= two_real_handoff_preview_loop_summary_line_part4(*s));
    text
}

fn format_two_real_handoff_preview_loop_summary_line_part5(s: &SwitcherFourViewTwoRealHandoffPreviewLoopSummary) -> (r: String)
    ensures
        r@ == two_real_handoff_preview_loop_summary_line_part5(*s),
{
    let mut text = String::new();
    push_str(&mut text, " decode_process_wait_elapsed_ms=");
    push_decimal(&mut text, s.decode_process_wait_elapsed_ms as u128);
    push_str(&mut text, " decode_pixel_convert_elapsed_ms=");
    push_decimal(&mut text, s.decode_pixel_convert_elapsed_ms as u128);
    push_str(&mut text, " decode_buffer_allocation_count=");
    push_decimal(&mut text, s.decode_buffer_allocation_count as u128);
    push_str(&mut text, " decode_output_bytes_total=");
    push_decimal(&mut text, s.decode_output_bytes_total as u128);
    push_str(&mut text, " decode_stdout_expected_bytes_total=");
    push_decimal(&mut text, s.decode_stdout_expected_bytes_total as u128);
    push_str(&mut text, " decode_cached_frame_reuse_count=");
    push_decimal(&mut text, s.decode_cached_frame_reuse_count as u128);
    push_str(&mut text, " decode_cache_miss_count=");
    push_decimal(&mut text, s.decode_cache_miss_count as u128);
    push_str(&mut text, " decoded_buffer_clone_count=");
    push_decimal(&mut text, s.decoded_buffer_clone_count as u128);
    push_str(&mut text, " decode_cache_hit_clone_count=");
    push_decimal(&mut text, s.decode_cache_hit_clone_count as u128);
    push_str(&mut text, " decode_cache_store_clone_count=");
    push_decimal(&mut text, s.decode_cache_store_clone_count as u128);
    assert(text@ =~= two_real_handoff_preview_loop_summary_line_part5(*s));
    text
}

fn format_two_real_handoff_preview_loop_summary_line_part6(s: &SwitcherFourViewTwoRealHandoffPreviewLoopSummary) -> (r: String)
    ensures
        r@ == two_real_handoff_preview_loop_summary_line_part6(*s),
{
    let mut text = String::new();
    push_str(&mut text, " decoded_buffer_clone_elapsed_ms=");
    push_decimal(&mut text, s.decoded_buffer_clone_elapsed_ms as u128);
    push_str(&mut text, " composed_buffer_clone_count=");
    push_decimal(&mut text, s.composed_buffer_clone_count as u128);
    push_str(&mut text, " decode_output_buffer_reuse_count=");
    push_decimal(&mut text, s.decode_output_buffer_reuse_count as u128);
    push_str(&mut text, " persistent_decode_enabled=");
    push_bool(&mut text, s.persistent_decode_enabled);
    push_str(&mut text, " persistent_decode_attempt_count=");
    push_decimal(&mut text, s.persistent_decode_attempt_count as u128);
    push_str(&mut text, " persistent_decode_success_count=");
    push_decimal(&mut text, s.persistent_decode_success_count as u128);
    push_str(&mut text, " persistent_decode_failure_count=");
    push_decimal(&mut text, s.persistent_decode_failure_count as u128);
    push_str(&mut text, " persistent_decode_fallback_count=");
    push_decimal(&mut text, s.persistent_decode_fallback_count as u128);
    push_str(&mut text, " persistent_decode_process_spawn_count=");
    push_decimal(&mut text, s.persistent_decode_process_spawn_count as u128);
    push_str(&mut text, " persistent_decode_process_restart_count=");
    push_decimal(&mut text, s.persistent_decode_process_restart_count as u128);
    assert(text@ =~= two_real_handoff_preview_loop_summary_line_part6(*s));
    text
}

fn format_two_real_handoff_preview_loop_summary_line_part7(s: &SwitcherFourViewTwoRealHandoffPreviewLoopSummary) -> (r: String)
    ensures
        r@ == two_real_handoff_preview_loop_summary_line_part7(*s),
{
    let mut text = String::new();
    push_str(&mut text, " persistent_decode_stdin_write_elapsed_ms=");
    push_decimal(&mut text, s.persistent_decode_stdin_write_elapsed_ms as u128);
    push_str(&mut text, " persistent_decode_stdout_read_elapsed_ms=");
    push_decimal(&mut text, s.persistent_decode_stdout_read_elapsed_ms as u128);
    push_str(&mut text, " persistent_decode_stdout_read_exact_elapsed_ms=");
    push_decimal(&mut text, s.persistent_decode_stdout_read_exact_elapsed_ms as u128);
    push_str(&mut text, " persistent_decode_output_bytes_total=");
    push_decimal(&mut text, s.persistent_decode_output_bytes_total as u128);
    push_str(&mut text, " persistent_decode_last_error=");
    push_sanitized(&mut text, s.persistent_decode_last_error.as_str());
    push_str(&mut text, " one_shot_decode_fallback_count=");
    push_decimal(&mut text, s.one_shot_decode_fallback_count as u128);
    push_str(&mut text, " handoff_elapsed_ms=");
    push_decimal(&mut text, s.handoff_elapsed_ms as u128);
    push_str(&mut text, " render_elapsed_ms=");
    push_decimal(&mut text, s.render_elapsed_ms as u128);
    push_str(&mut text, " avg_decode_elapsed_ms=");
    push_str(&mut text, s.avg_decode_elapsed_ms.as_str());
    push_str(&mut text, " avg_decode_input_write_elapsed_ms=");
    push_str(&mut text, s.avg_decode_input_write_elapsed_ms.as_str());
    assert(text@ =~= two_real_handoff_preview_loop_summary_line_part7(*s));
    text
}

fn format_two_real_handoff_preview_loop_summary_line_part8(s: &SwitcherFourViewTwoRealHandoffPreviewLoopSummary) -> (r: String)
    ensures
        r@ == two_real_handoff_preview_loop_summary_line_part8(*s),
{
    let mut text = String::new();
    push_str(&mut text, " avg_decode_output_read_elapsed_ms=");
    push_str(&mut text, s.avg_decode_output_read_elapsed_ms.as_str());
    push_str(&mut text, " avg_decode_process_spawn_elapsed_ms=");
    push_str(&mut text, s.avg_decode_process_spawn_elapsed_ms.as_str());
    push_str(&mut text, " avg_handoff_elapsed_ms=");
    push_str(&mut text, s.avg_handoff_elapsed_ms.as_str());
    push_str(&mut text, " avg_render_elapsed_ms=");
    push_str(&mut text, s.avg_render_elapsed_ms.as_str());
    push_str(&mut text, " loop_total_elapsed_ms=");
    push_decimal(&mut text, s.loop_total_elapsed_ms as u128);
    push_str(&mut text, " attempt_body_elapsed_ms=");
    push_decimal(&mut text, s.attempt_body_elapsed_ms as u128);
    push_str(&mut text, " loop_sleep_elapsed_ms=");
    push_decimal(&mut text, s.loop_sleep_elapsed_ms as u128);
    push_str(&mut text, " frame_interval_wait_elapsed_ms=");
    push_decimal(&mut text, s.frame_interval_wait_elapsed_ms as u128);
    push_str(&mut text, " event_pump_elapsed_ms=");
    push_decimal(&mut text, s.event_pump_elapsed_ms as u128);
    push_str(&mut text, " window_update_elapsed_ms=");
    push_decimal(&mut text, s.window_update_elapsed_ms as u128);
    assert(text@ =~= two_real_handoff_preview_loop_summary_line_part8(*s));
    text
}

fn format_two_real_handoff_preview_loop_summary_line_part9(s: &SwitcherFourViewTwoRealHandoffPreviewLoopSummary) -> (r: String)
    ensures
        r@ == two_real_handoff_preview_loop_summary_line_part9(*s),
{
    let mut text = String::new();
    push_str(&mut text, " render_prepare_elapsed_ms=");
    push_decimal(&mut text, s.render_prepare_elapsed_ms as u128);
    push_str(&mut text, " render_buffer_cpu_scale_copy_elapsed_ms=");
    push_decimal(&mut text, s.render_buffer_cpu_scale_copy_elapsed_ms as u128);
    push_str(&mut text, " render_buffer_copy_elapsed_ms=");
    push_decimal(&mut text, s.render_buffer_copy_elapsed_ms as u128);
    push_str(&mut text, " render_buffer_materialization_elapsed_ms=");
    push_decimal(&mut text, s.render_buffer_materialization_elapsed_ms as u128);
    push_str(&mut text, " render_buffer_scale_prepare_elapsed_ms=");
    push_decimal(&mut text, s.render_buffer_scale_prepare_elapsed_ms as u128);
    push_str(&mut text, " render_buffer_scale_loop_elapsed_ms=");
    push_decimal(&mut text, s.render_buffer_scale_loop_elapsed_ms as u128);
    push_str(&mut text, " render_buffer_output_copy_elapsed_ms=");
    push_decimal(&mut text, s.render_buffer_output_copy_elapsed_ms as u128);
    push_str(&mut text, " render_buffer_resize_elapsed_ms=");
    push_decimal(&mut text, s.render_buffer_resize_elapsed_ms as u128);
    push_str(&mut text, " render_buffer_clear_elapsed_ms=");
    push_decimal(&mut text, s.render_buffer_clear_elapsed_ms as u128);
    push_str(&mut text, " render_buffer_passthrough_count=");
    push_decimal(&mut text, s.render_buffer_passthrough_count as u128);
    assert(text@ =~= two_real_handoff_preview_loop_summary_line_part9(*s));
    text
}

fn format_two_real_handoff_preview_loop_summary_line_part10(s: &SwitcherFourViewTwoRealHandoffPreviewLoopSummary) -> (r: String)
    ensures
        r@ == two_real_handoff_preview_loop_summary_line_part10(*s),
{
    let mut text = String::new();
    push_str(&mut text, " render_buffer_same_size_copy_count=");
    push_decimal(&mut text, s.render_buffer_same_size_copy_count as u128);
    push_str(&mut text, " render_buffer_half_scale_count=");
    push_decimal(&mut text, s.render_buffer_half_scale_count as u128);
    push_str(&mut text, " render_buffer_generic_scale_count=");
    push_decimal(&mut text, s.render_buffer_generic_scale_count as u128);
    push_str(&mut text, " render_buffer_reuse_count=");
    push_decimal(&mut text, s.render_buffer_reuse_count as u128);
    push_str(&mut text, " render_buffer_allocation_count=");
    push_decimal(&mut text, s.render_buffer_allocation_count as u128);
    push_str(&mut text, " render_buffer_bytes_copied_total=");
    push_decimal(&mut text, s.render_buffer_bytes_copied_total as u128);
    push_str(&mut text, " render_backend_wait_elapsed_ms=");
    push_decimal(&mut text, s.render_backend_wait_elapsed_ms as u128);
    push_str(&mut text, " gdi_invalidate_elapsed_ms=");
    push_decimal(&mut text, s.gdi_invalidate_elapsed_ms as u128);
    push_str(&mut text, " gdi_paint_wait_elapsed_ms=");
    push_decimal(&mut text, s.gdi_paint_wait_elapsed_ms as u128);
    push_str(&mut text, " gdi_wm_paint_elapsed_ms=");
    push_decimal(&mut text, s.gdi_wm_paint_elapsed_ms as u128);
    assert(text@ =~= two_real_handoff_preview_loop_summary_line_part10(*s));
    text
}

fn format_two_real_handoff_preview_loop_summary_line_part11(s: &SwitcherFourViewTwoRealHandoffPreviewLoopSummary) -> (r: String)
    ensures
        r@ == two_real_handoff_preview_loop_summary_line_part11(*s),
{
    let mut text = String::new();
    push_str(&mut text, " gdi_stretchdibits_elapsed_ms=");
    push_decimal(&mut text, s.gdi_stretchdibits_elapsed_ms as u128);
    push_str(&mut text, " texture_upload_elapsed_ms=");
    push_decimal(&mut text, s.texture_upload_elapsed_ms as u128);
    push_str(&mut text, " window_present_elapsed_ms=");
    push_decimal(&mut text, s.window_present_elapsed_ms as u128);
    push_str(&mut text, " vsync_or_present_block_elapsed_ms=");
    push_decimal(&mut text, s.vsync_or_present_block_elapsed_ms as u128);
    push_str(&mut text, " quad_view_compose_elapsed_ms=");
    push_decimal(&mut text, s.quad_view_compose_elapsed_ms as u128);
    push_str(&mut text, " quad_view_compose_attempt_count=");
    push_decimal(&mut text, s.quad_view_compose_attempt_count as u128);
    push_str(&mut text, " quad_view_compose_success_count=");
    push_decimal(&mut text, s.quad_view_compose_success_count as u128);
    push_str(&mut text, " quad_view_compose_skipped_unchanged_count=");
    push_decimal(&mut text, s.quad_view_compose_skipped_unchanged_count as u128);
    push_str(&mut text, " quad_view_composed_frame_reuse_count=");
    push_decimal(&mut text, s.quad_view_composed_frame_reuse_count as u128);
    push_str(&mut text, " quad_view_visual_unchanged_count=");
    push_decimal(&mut text, s.quad_view_visual_unchanged_count as u128);
    assert(text@ =~= two_real_handoff_preview_loop_summary_line_part11(*s));
    text
}

fn format_two_real_handoff_preview_loop_summary_line_part12(s: &SwitcherFourViewTwoRealHandoffPreviewLoopSummary) -> (r: String)
    ensures
        r@ == two_real_handoff_preview_loop_summary_line_part12(*s),
{
    let mut text = String::new();
    push_str(&mut text, " quad_view_visual_changed_count=");
    push_decimal(&mut text, s.quad_view_visual_changed_count as u128);
    push_str(&mut text, " materialization_reason_first_render_count=");
    push_decimal(&mut text, s.materialization_reason_first_render_count as u128);
    push_str(&mut text, " materialization_reason_visual_changed_count=");
    push_decimal(&mut text, s.materialization_reason_visual_changed_count as u128);
    push_str(&mut text, " materialization_reason_previous_output_missing_count=");
    push_decimal(&mut text, s.materialization_reason_previous_output_missing_count as u128);
    push_str(&mut text, " materialization_reason_profile_or_size_mismatch_count=");
    push_decimal(&mut text, s.materialization_reason_profile_or_size_mismatch_count as u128);
    push_str(&mut text, " materialization_reason_force_render_count=");
    push_decimal(&mut text, s.materialization_reason_force_render_count as u128);
    push_str(&mut text, " materialization_reason_unknown_count=");
    push_decimal(&mut text, s.materialization_reason_unknown_count as u128);
    push_str(&mut text, " slot0_frame_id_changed_count=");
    push_decimal(&mut text, s.slot0_frame_id_changed_count as u128);
    push_str(&mut text, " slot1_frame_id_changed_count=");
    push_decimal(&mut text, s.slot1_frame_id_changed_count as u128);
    push_str(&mut text, " slot2_frame_id_changed_count=");
    push_decimal(&mut text, s.slot2_frame_id_changed_count as u128);
    assert(text@ =~= two_real_handoff_preview_loop_summary_line_part12(*s));
    text
}

fn format_two_real_handoff_preview_loop_summary_line_part13(s: &SwitcherFourViewTwoRealHandoffPreviewLoopSummary) -> (r: String)
    ensures
        r@ == two_real_handoff_preview_loop_summary_line_part13(*s),
{
    let mut text = String::new();
    push_str(&mut text, " slot3_frame_id_changed_count=");
    push_decimal(&mut text, s.slot3_frame_id_changed_count as u128);
    push_str(&mut text, " slot0_selected_source_changed_count=");
    push_decimal(&mut text, s.slot0_selected_source_changed_count as u128);
    push_str(&mut text, " slot1_selected_source_changed_count=");
    push_decimal(&mut text, s.slot1_selected_source_changed_count as u128);
    push_str(&mut text, " slot2_selected_source_changed_count=");
    push_decimal(&mut text, s.slot2_selected_source_changed_count as u128);
    push_str(&mut text, " slot3_selected_source_changed_count=");
    push_decimal(&mut text, s.slot3_selected_source_changed_count as u128);
    push_str(&mut text, " placeholder_visual_changed_count=");
    push_decimal(&mut text, s.placeholder_visual_changed_count as u128);
    push_str(&mut text, " quad_view_incremental_update_count=");
    push_decimal(&mut text, s.quad_view_incremental_update_count as u128);
    push_str(&mut text, " quad_view_full_compose_count=");
    push_decimal(&mut text, s.quad_view_full_compose_count as u128);
    push_str(&mut text, " quad_view_changed_slot_update_count=");
    push_decimal(&mut text, s.quad_view_changed_slot_update_count as u128);
    push_str(&mut text, " quad_view_reused_slot_count=");
    push_decimal(&mut text, s.quad_view_reused_slot_count as u128);
    assert(text@ =~= two_real_handoff_preview_loop_summary_line_part13(*s));
    text
}

fn format_two_real_handoff_preview_loop_summary_line_part14(s: &SwitcherFourViewTwoRealHandoffPreviewLoopSummary) -> (r: String)
    ensures
        r@ == two_real_handoff_preview_loop_summary_line_part14(*s),
{
    let mut text = String::new();
    push_str(&mut text, " quad_view_allocation_count=");
    push_decimal(&mut text, s.quad_view_allocation_count as u128);
    push_str(&mut text, " avg_render_buffer_cpu_scale_copy_elapsed_ms=");
    push_str(&mut text, s.avg_render_buffer_cpu_scale_copy_elapsed_ms.as_str());
    push_str(&mut text, " avg_render_buffer_materialization_elapsed_ms=");
    push_str(&mut text, s.avg_render_buffer_materialization_elapsed_ms.as_str());
    push_str(&mut text, " avg_gdi_paint_wait_elapsed_ms=");
    push_str(&mut text, s.avg_gdi_paint_wait_elapsed_ms.as_str());
    push_str(&mut text, " avg_gdi_wm_paint_elapsed_ms=");
    push_str(&mut text, s.avg_gdi_wm_paint_elapsed_ms.as_str());
    push_str(&mut text, " avg_gdi_stretchdibits_elapsed_ms=");
    push_str(&mut text, s.avg_gdi_stretchdibits_elapsed_ms.as_str());
    push_str(&mut text, " avg_quad_view_incremental_update_elapsed_ms=");
    push_str(&mut text, s.avg_quad_view_incremental_update_elapsed_ms.as_str());
    push_str(&mut text, " avg_quad_view_compose_elapsed_ms=");
    push_str(&mut text, s.avg_quad_view_compose_elapsed_ms.as_str());
    push_str(&mut text, " render_call_elapsed_ms=");
    push_decimal(&mut text, s.render_call_elapsed_ms as u128);
    push_str(&mut text, " render_input_unchanged_count=");
    push_decimal(&mut text, s.render_input_unchanged_count as u128);
    assert(text@ =~= two_real_handoff_preview_loop_summary_line_part14(*s));
    text
}

fn format_two_real_handoff_preview_loop_summary_line_part15(s: &SwitcherFourViewTwoRealHandoffPreviewLoopSummary) -> (r: String)
    ensures
        r@ == two_real_handoff_preview_loop_summary_line_part15(*s),
{
    let mut text = String::new();
    push_str(&mut text, " render_reuse_frame_count=");
    push_decimal(&mut text, s.render_reuse_frame_count as u128);
    push_str(&mut text, " unaccounted_elapsed_ms=");
    push_decimal(&mut text, s.unaccounted_elapsed_ms as u128);
    push_str(&mut text, " avg_attempt_elapsed_ms=");
    push_str(&mut text, s.avg_attempt_elapsed_ms.as_str());
    push_str(&mut text, " max_attempt_elapsed_ms=");
    push_decimal(&mut text, s.max_attempt_elapsed_ms as u128);
    push_str(&mut text, " slow_attempt_count=");
    push_decimal(&mut text, s.slow_attempt_count as u128);
    push_str(&mut text, " slow_attempt_threshold_ms=");
    push_decimal(&mut text, s.slow_attempt_threshold_ms as u128);
    push_str(&mut text, " scheduler_status=");
    push_str(&mut text, s.scheduler_status.as_str());
    push_str(&mut text, " slot_bindings=");
    push_pipe_joined(&mut text, &s.slot_bindings);
    push_str(&mut text, " slot_result_kinds=");
    push_pipe_joined(&mut text, &s.slot_result_kinds);
    push_str(&mut text, " slot_diagnostics=");
    push_pipe_joined(&mut text, &s.slot_diagnostics);
    assert(text@ =~= two_real_handoff_preview_loop_summary_line_part15(*s));
    text
}

fn format_two_real_handoff_preview_loop_summary_line_part16(s: &SwitcherFourViewTwoRealHandoffPreviewLoopSummary) -> (r: String)
    ensures
        r@ == two_real_handoff_preview_loop_summary_line_part16(*s),
{
    let mut text = String::new();
    push_str(&mut text, " clean_output_render_result_kind=");
    push_str(&mut text, s.clean_output_render_result_kind.as_str());
    push_str(&mut text, " window_title=");
    push_str(&mut text, s.window_title.as_str());
    push_str(&mut text, " output_width=");
    push_opt_u32(&mut text, s.output_width);
    push_str(&mut text, " output_height=");
    push_opt_u32(&mut text, s.output_height);
    assert(text@ =~= two_real_handoff_preview_loop_summary_line_part16(*s));
    text
}

/// Formats the summary line of the two-real handoff preview loop.
pub fn format_four_view_two_real_handoff_preview_loop_summary(summary: &SwitcherFourViewTwoRealHandoffPreviewLoopSummary) -> (r: String)
    ensures
        r@ == two_real_handoff_preview_loop_summary_line(*summary),
{
    let mut text = String::new();
    let part = format_two_real_handoff_preview_loop_summary_line_part1(summary);
    push_str(&mut text, part.as_str());
    let part = format_two_real_handoff_preview_loop_summary_line_part2(summary);
    push_str(&mut text, part.as_str());
    let part = format_two_real_handoff_preview_loop_summary_line_part3(summary);
    push_str(&mut text, part.as_str());
    let part = format_two_real_handoff_preview_loop_summary_line_part4(summary);
    push_str(&mut text, part.as_str());
    let part = format_two_real_handoff_preview_loop_summary_line_part5(summary);
    push_str(&mut text, part.as_str());
    let part = format_two_real_handoff_preview_loop_summary_line_part6(summary);
    push_str(&mut text, part.as_str());
    let part = format_two_real_handoff_preview_loop_summary_line_part7(summary);
    push_str(&mut text, part.as_str());
    let part = format_two_real_handoff_preview_loop_summary_line_part8(summary);
    push_str(&mut text, part.as_str());
    let part = format_two_real_handoff_preview_loop_summary_line_part9(summary);
    push_str(&mut text, part.as_str());
    let part = format_two_real_handoff_preview_loop_summary_line_part10(summary);
    push_str(&mut text, part.as_str());
    let part = format_two_real_handoff_preview_loop_summary_line_part11(summary);
    push_str(&mut text, part.as_str());
    let part = format_two_real_handoff_preview_loop_summary_line_part12(summary);
    push_str(&mut text, part.as_str());
    let part = format_two_real_handoff_preview_loop_summary_line_part13(summary);
    push_str(&mut text, part.as_str());
    let part = format_two_real_handoff_preview_loop_summary_line_part14(summary);
    push_str(&mut text, part.as_str());
    let part = format_two_real_handoff_preview_loop_summary_line_part15(summary);
    push_str(&mut text, part.as_str());
    let part = format_two_real_handoff_preview_loop_summary_line_part16(summary);
    push_str(&mut text, part.as_str());
    assert(text@ =~= two_real_handoff_preview_loop_summary_line(*summary));
    text
}
} // verus!
