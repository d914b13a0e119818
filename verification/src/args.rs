//! Command-line argument parsing of the switcher's commands.

use vstd::prelude::*;
use crate::modes::{ManualPreviewFixtureMode, QueueSourceMode};
use crate::numbers::{IntParseError, int_parse_error_message, parse_unsigned, parse_unsigned_chars,
    push_int_parse_error_message};
use crate::text::{chars_of, is_blank, owned, push_str, str_eq, string_views, trim};

verus! {

/// The characters of an optional string.
pub open spec fn opt_view(o: Option<String>) -> Option<Seq<char>> {
    match o {
        Some(s) => Some(s@),
        None => None,
    }
}

/// The outcome of reading a positive `u32` argument named `name`.
pub open spec fn positive_u32_arg(value: Option<Seq<char>>, name: Seq<char>) -> Result<
    nat,
    Seq<char>,
> {
    match value {
        None => Err("missing "@ + name),
        Some(v) => match parse_unsigned(v, u32::MAX as nat) {
            Err(e) => Err("invalid "@ + name + ": "@ + int_parse_error_message(e)),
            Ok(n) => if n == 0 {
                Err("invalid "@ + name + ": expected positive integer"@)
            } else {
                Ok(n)
            },
        },
    }
}

/// Reads a positive `u32` argument; the error names the argument.
pub fn parse_positive_u32_arg(value: Option<String>, name: &str) -> (r: Result<u32, String>)
    ensures
        match positive_u32_arg(opt_view(value), name@) {
            Ok(n) => r matches Ok(x) && x == n,
            Err(m) => r matches Err(e) && e@ == m,
        },
{
    match value {
        None => {
            let mut e = owned("missing ");
            push_str(&mut e, name);
            Err(e)
        },
        Some(v) => {
            let cs = chars_of(v.as_str());
            match parse_unsigned_chars(cs.as_slice(), 0xffff_ffffu64) {
                Err(pe) => {
                    let mut e = owned("invalid ");
                    push_str(&mut e, name);
                    push_str(&mut e, ": ");
                    push_int_parse_error_message(&mut e, pe);
                    Err(e)
                },
                Ok(n) => {
                    if n == 0 {
                        let mut e = owned("invalid ");
                        push_str(&mut e, name);
                        push_str(&mut e, ": expected positive integer");
                        Err(e)
                    } else {
                        Ok(n as u32)
                    }
                },
            }
        },
    }
}

/// The message for arguments that are neither empty nor one `--commands`
/// script.
pub open spec fn unexpected_script_args_message() -> Seq<char> {
    "unexpected extra arguments: expected optional --commands \"cmd;cmd;quit\""@
}

/// The outcome of reading the optional `--commands` script argument.
pub open spec fn optional_control_script(args: Seq<Seq<char>>) -> Result<
    Option<Seq<char>>,
    Seq<char>,
> {
    if args.len() == 0 {
        Ok(None)
    } else if args.len() != 2 || args[0] != "--commands"@ {
        Err(unexpected_script_args_message())
    } else {
        Ok(Some(args[1]))
    }
}

/// Reads the optional `--commands "cmd;cmd;quit"` argument pair.
pub fn parse_optional_four_view_control_script(args: Vec<String>) -> (r: Result<
    Option<String>,
    String,
>)
    ensures
        match optional_control_script(string_views(args@)) {
            Ok(None) => r matches Ok(None),
            Ok(Some(s)) => r matches Ok(Some(x)) && x@ == s,
            Err(m) => r matches Err(e) && e@ == m,
        },
{
    if args.len() == 0 {
        return Ok(None);
    }
    if args.len() != 2 || !str_eq(args[0].as_str(), "--commands") {
        return Err(owned("unexpected extra arguments: expected optional --commands \"cmd;cmd;quit\""));
    }
    Ok(Some(args[1].clone()))
}

/// Where the controlled preview loop reads its commands from.
#[derive(Debug, Clone, PartialEq, Eq)]
pub enum FourViewControlCommandSource {
    /// One command per line of standard input.
    Stdin,
    /// A `;`-separated script.
    Scripted(String),
    /// One command per connection on the named control pipe.
    ControlPipe(String),
}

/// A command source with its texts as character sequences.
pub enum CommandSourceView {
    Stdin,
    Scripted(Seq<char>),
    ControlPipe(Seq<char>),
}

impl View for FourViewControlCommandSource {
    type V = CommandSourceView;

    open spec fn view(&self) -> CommandSourceView {
        match self {
            FourViewControlCommandSource::Stdin => CommandSourceView::Stdin,
            FourViewControlCommandSource::Scripted(s) => CommandSourceView::Scripted(s@),
            FourViewControlCommandSource::ControlPipe(p) => CommandSourceView::ControlPipe(p@),
        }
    }
}

/// The message for giving both command sources.
pub open spec fn either_source_message() -> Seq<char> {
    "use either --commands \"cmd;cmd;quit\" or --control-pipe pipe-name"@
}

/// The message for an argument that is neither source flag.
pub open spec fn unexpected_source_args_message() -> Seq<char> {
    "unexpected extra arguments: expected optional --commands \"cmd;cmd;quit\" or --control-pipe pipe-name"@
}

/// Reads the flag arguments from index `i` on, with the script or pipe name
/// read so far.
pub open spec fn control_source_scan(
    args: Seq<Seq<char>>,
    i: nat,
    scripted: Option<Seq<char>>,
    pipe: Option<Seq<char>>,
) -> Result<CommandSourceView, Seq<char>>
    decreases args.len() - i,
{
    if i >= args.len() {
        match (scripted, pipe) {
            (Some(s), _) => Ok(CommandSourceView::Scripted(s)),
            (None, Some(p)) => Ok(CommandSourceView::ControlPipe(p)),
            (None, None) => Ok(CommandSourceView::Stdin),
        }
    } else if args[i as int] == "--commands"@ {
        if scripted is Some || pipe is Some {
            Err(either_source_message())
        } else if i + 1 >= args.len() {
            Err("missing value for --commands"@)
        } else {
            control_source_scan(args, i + 2, Some(args[i + 1 as int]), None)
        }
    } else if args[i as int] == "--control-pipe"@ {
        if scripted is Some || pipe is Some {
            Err(either_source_message())
        } else if i + 1 >= args.len() {
            Err("missing value for --control-pipe"@)
        } else if trim(args[i + 1 as int]).len() == 0 {
            Err("control pipe name must not be empty"@)
        } else {
            control_source_scan(args, i + 2, None, Some(args[i + 1 as int]))
        }
    } else {
        Err(unexpected_source_args_message())
    }
}

/// The outcome of reading the command source arguments: without
/// `--control-pipe` they are the optional script (standard input when absent);
/// with it, each flag is read with its value, and only one source may be given.
pub open spec fn control_command_source(args: Seq<Seq<char>>) -> Result<
    CommandSourceView,
    Seq<char>,
> {
    if !args.contains("--control-pipe"@) {
        match optional_control_script(args) {
            Ok(None) => Ok(CommandSourceView::Stdin),
            Ok(Some(s)) => Ok(CommandSourceView::Scripted(s)),
            Err(m) => Err(m),
        }
    } else {
        control_source_scan(args, 0, None, None)
    }
}

/// Whether one of the strings equals `t`.
pub fn contains_str(args: &Vec<String>, t: &str) -> (r: bool)
    ensures
        r == string_views(args@).contains(t@),
{
    let ghost a = string_views(args@);
    let mut k: usize = 0;
    while k < args.len()
        invariant
            0 <= k <= args.len(),
            a == string_views(args@),
            forall|j: int| 0 <= j < k ==> a[j] != t@,
        decreases args.len() - k,
    {
        if str_eq(args[k].as_str(), t) {
            assert(a[k as int] == t@);
            return true;
        }
        k = k + 1;
    }
    false
}

/// Reads `[--commands "cmd;cmd;quit" | --control-pipe pipe-name]`.
pub fn parse_four_view_control_command_source(args: Vec<String>) -> (r: Result<
    FourViewControlCommandSource,
    String,
>)
    ensures
        match control_command_source(string_views(args@)) {
            Ok(v) => r matches Ok(x) && x@ == v,
            Err(m) => r matches Err(e) && e@ == m,
        },
{
    let ghost a = string_views(args@);
    let has_pipe_flag = contains_str(&args, "--control-pipe");
    if !has_pipe_flag {
        return match parse_optional_four_view_control_script(args) {
            Ok(None) => Ok(FourViewControlCommandSource::Stdin),
            Ok(Some(s)) => Ok(FourViewControlCommandSource::Scripted(s)),
            Err(e) => Err(e),
        };
    }
    let mut scripted: Option<String> = None;
    let mut pipe: Option<String> = None;
    let mut i: usize = 0;
    while i < args.len()
        invariant
            0 <= i,
            a == string_views(args@),
            a.contains("--control-pipe"@),
            !(scripted is Some && pipe is Some),
            control_command_source(a) == control_source_scan(
                a,
                i as nat,
                opt_view(scripted),
                opt_view(pipe),
            ),
        decreases args.len() - i,
    {
        if str_eq(args[i].as_str(), "--commands") {
            if scripted.is_some() || pipe.is_some() {
                return Err(owned("use either --commands \"cmd;cmd;quit\" or --control-pipe pipe-name"));
            }
            if i + 1 >= args.len() {
                return Err(owned("missing value for --commands"));
            }
            assert(a[i + 1] == args@[i + 1]@);
            scripted = Some(args[i + 1].clone());
            i = i + 2;
        } else if str_eq(args[i].as_str(), "--control-pipe") {
            if scripted.is_some() || pipe.is_some() {
                return Err(owned("use either --commands \"cmd;cmd;quit\" or --control-pipe pipe-name"));
            }
            if i + 1 >= args.len() {
                return Err(owned("missing value for --control-pipe"));
            }
            assert(a[i + 1] == args@[i + 1]@);
            if is_blank(args[i + 1].as_str()) {
                return Err(owned("control pipe name must not be empty"));
            }
            pipe = Some(args[i + 1].clone());
            i = i + 2;
        } else {
            return Err(owned("unexpected extra arguments: expected optional --commands \"cmd;cmd;quit\" or --control-pipe pipe-name"));
        }
    }
    match scripted {
        Some(s) => Ok(FourViewControlCommandSource::Scripted(s)),
        None => match pipe {
            Some(p) => Ok(FourViewControlCommandSource::ControlPipe(p)),
            None => Ok(FourViewControlCommandSource::Stdin),
        },
    }
}


/// Where the operator wrapper reads its keys from.
#[derive(Debug, Clone, PartialEq, Eq)]
pub enum FourViewOperatorWrapperInputSource {
    /// One key per line of standard input.
    Stdin,
    /// A `;`-separated key script.
    ScriptedKeys(String),
    /// Single key presses from the console in raw mode.
    RawKeys,
}

/// An input source with its script as a character sequence.
pub enum InputSourceView {
    Stdin,
    ScriptedKeys(Seq<char>),
    RawKeys,
}

impl View for FourViewOperatorWrapperInputSource {
    type V = InputSourceView;

    open spec fn view(&self) -> InputSourceView {
        match self {
            FourViewOperatorWrapperInputSource::Stdin => InputSourceView::Stdin,
            FourViewOperatorWrapperInputSource::ScriptedKeys(k) => InputSourceView::ScriptedKeys(k@),
            FourViewOperatorWrapperInputSource::RawKeys => InputSourceView::RawKeys,
        }
    }
}

/// The message for operator wrapper arguments of another shape.
pub open spec fn unexpected_wrapper_args_message() -> Seq<char> {
    "unexpected extra arguments: expected optional --keys \"s;1;2;3;4;0;q;q\" or --raw-keys"@
}

/// The outcome of reading the operator wrapper's input source arguments.
pub open spec fn operator_wrapper_input_source(args: Seq<Seq<char>>) -> Result<
    InputSourceView,
    Seq<char>,
> {
    if args.len() == 0 {
        Ok(InputSourceView::Stdin)
    } else if args.len() == 2 && args[0] == "--keys"@ {
        Ok(InputSourceView::ScriptedKeys(args[1]))
    } else if args.len() == 1 && args[0] == "--raw-keys"@ {
        Ok(InputSourceView::RawKeys)
    } else {
        Err(unexpected_wrapper_args_message())
    }
}

/// Reads `[--keys "s;1;2;3;4;0;q;q" | --raw-keys]`.
pub fn parse_four_view_operator_wrapper_input_source(args: Vec<String>) -> (r: Result<
    FourViewOperatorWrapperInputSource,
    String,
>)
    ensures
        match operator_wrapper_input_source(string_views(args@)) {
            Ok(v) => r matches Ok(x) && x@ == v,
            Err(m) => r matches Err(e) && e@ == m,
        },
{
    if args.len() == 0 {
        return Ok(FourViewOperatorWrapperInputSource::Stdin);
    }
    if args.len() == 2 && str_eq(args[0].as_str(), "--keys") {
        return Ok(FourViewOperatorWrapperInputSource::ScriptedKeys(args[1].clone()));
    }
    if args.len() == 1 && str_eq(args[0].as_str(), "--raw-keys") {
        return Ok(FourViewOperatorWrapperInputSource::RawKeys);
    }
    Err(owned("unexpected extra arguments: expected optional --keys \"s;1;2;3;4;0;q;q\" or --raw-keys"))
}

/// The message for a slot index that is not one of 0 to 3.
pub open spec fn slot_index_range_message() -> Seq<char> {
    "invalid real-slot-index: expected integer 0..3"@
}

/// The outcome of reading a real slot index: an integer from 0 to 3.
pub open spec fn real_slot_index(value: Option<Seq<char>>) -> Result<nat, Seq<char>> {
    match value {
        None => Err("missing real-slot-index"@),
        Some(v) => match parse_unsigned(v, usize::MAX as nat) {
            Err(_) => Err(slot_index_range_message()),
            Ok(n) => if n > 3 {
                Err(slot_index_range_message())
            } else {
                Ok(n)
            },
        },
    }
}

/// Reads a real slot index from 0 to 3.
pub fn parse_four_view_real_slot_index(value: Option<String>) -> (r: Result<usize, String>)
    ensures
        match real_slot_index(opt_view(value)) {
            Ok(n) => r matches Ok(x) && x == n,
            Err(m) => r matches Err(e) && e@ == m,
        },
{
    match value {
        None => Err(owned("missing real-slot-index")),
        Some(raw) => {
            let cs = chars_of(raw.as_str());
            match parse_unsigned_chars(cs.as_slice(), usize::MAX as u64) {
                Err(_) => Err(owned("invalid real-slot-index: expected integer 0..3")),
                Ok(n) => {
                    if n > 3 {
                        Err(owned("invalid real-slot-index: expected integer 0..3"))
                    } else {
                        Ok(n as usize)
                    }
                },
            }
        },
    }
}

/// The message for two real slots that share an index.
pub open spec fn duplicate_slot_indices_message() -> Seq<char> {
    "invalid slot indices: slot0-index and slot1-index must be distinct"@
}

/// Accepts two distinct real slot indices.
pub fn validate_distinct_four_view_real_slot_indices(slot0_index: usize, slot1_index: usize) -> (r:
    Result<(), String>)
    ensures
        slot0_index != slot1_index ==> r is Ok,
        slot0_index == slot1_index ==> (r matches Err(e) && e@ == duplicate_slot_indices_message()),
{
    if slot0_index == slot1_index {
        return Err(owned("invalid slot indices: slot0-index and slot1-index must be distinct"));
    }
    Ok(())
}

/// The message for a read mode name that is not one of the four.
pub open spec fn invalid_mode_message(name: Seq<char>) -> Seq<char> {
    "invalid "@ + name
        + ": expected preview-oldest, preview-latest, preview-latest-decodable, or consume-oldest"@
}

/// The outcome of reading a queue source mode argument named `name`.
pub open spec fn handoff_mode_arg(value: Option<Seq<char>>, name: Seq<char>) -> Result<
    QueueSourceMode,
    Seq<char>,
> {
    match value {
        None => Err("missing "@ + name),
        Some(v) => if v == "preview-oldest"@ {
            Ok(QueueSourceMode::PreviewOldest)
        } else if v == "preview-latest"@ {
            Ok(QueueSourceMode::PreviewLatest)
        } else if v == "preview-latest-decodable"@ {
            Ok(QueueSourceMode::PreviewLatestDecodable)
        } else if v == "consume-oldest"@ {
            Ok(QueueSourceMode::ConsumeOldest)
        } else {
            Err(invalid_mode_message(name))
        },
    }
}

/// Reads a queue source mode by its command-line name.
pub fn parse_handoff_mode(value: Option<String>, name: &str) -> (r: Result<
    QueueSourceMode,
    String,
>)
    ensures
        match handoff_mode_arg(opt_view(value), name@) {
            Ok(m) => r == Ok::<QueueSourceMode, String>(m),
            Err(m) => r matches Err(e) && e@ == m,
        },
{
    match value {
        None => {
            let mut e = owned("missing ");
            push_str(&mut e, name);
            Err(e)
        },
        Some(v) => {
            if str_eq(v.as_str(), "preview-oldest") {
                Ok(QueueSourceMode::PreviewOldest)
            } else if str_eq(v.as_str(), "preview-latest") {
                Ok(QueueSourceMode::PreviewLatest)
            } else if str_eq(v.as_str(), "preview-latest-decodable") {
                Ok(QueueSourceMode::PreviewLatestDecodable)
            } else if str_eq(v.as_str(), "consume-oldest") {
                Ok(QueueSourceMode::ConsumeOldest)
            } else {
                let mut e = owned("invalid ");
                push_str(&mut e, name);
                push_str(
                    &mut e,
                    ": expected preview-oldest, preview-latest, preview-latest-decodable, or consume-oldest",
                );
                Err(e)
            }
        },
    }
}

/// The message for a preview loop read mode that consumes.
pub open spec fn consuming_preview_mode_message() -> Seq<char> {
    "invalid read-mode: expected preview-oldest, preview-latest, or preview-latest-decodable"@
}

/// The outcome of reading the optional read mode of a real preview loop:
/// preview-latest when absent, and never a consuming mode.
pub open spec fn optional_real_handoff_preview_mode(value: Option<Seq<char>>) -> Result<
    QueueSourceMode,
    Seq<char>,
> {
    match value {
        None => Ok(QueueSourceMode::PreviewLatest),
        Some(v) => match handoff_mode_arg(Some(v), "read-mode"@) {
            Err(m) => Err(m),
            Ok(QueueSourceMode::ConsumeOldest) => Err(consuming_preview_mode_message()),
            Ok(m) => Ok(m),
        },
    }
}

/// Reads the optional read mode of a real preview loop.
pub fn parse_optional_real_handoff_preview_mode(value: Option<String>) -> (r: Result<
    QueueSourceMode,
    String,
>)
    ensures
        match optional_real_handoff_preview_mode(opt_view(value)) {
            Ok(m) => r == Ok::<QueueSourceMode, String>(m),
            Err(m) => r matches Err(e) && e@ == m,
        },
{
    match value {
        None => Ok(QueueSourceMode::PreviewLatest),
        Some(raw) => {
            match parse_handoff_mode(Some(raw), "read-mode") {
                Err(e) => Err(e),
                Ok(QueueSourceMode::ConsumeOldest) => Err(
                    owned(
                        "invalid read-mode: expected preview-oldest, preview-latest, or preview-latest-decodable",
                    ),
                ),
                Ok(m) => Ok(m),
            }
        },
    }
}

/// The message for a fixture mode name that is not one of the three.
pub open spec fn invalid_fixture_mode_message() -> Seq<char> {
    "invalid fixture-mode: expected all-renderable, mixed-placeholder-source-error, or placeholder-only"@
}

/// The outcome of reading a proof fixture mode; all-renderable when absent.
pub open spec fn manual_preview_fixture_mode(value: Option<Seq<char>>) -> Result<
    ManualPreviewFixtureMode,
    Seq<char>,
> {
    match value {
        None => Ok(ManualPreviewFixtureMode::AllRenderable),
        Some(v) => if v == "all-renderable"@ {
            Ok(ManualPreviewFixtureMode::AllRenderable)
        } else if v == "mixed-placeholder-source-error"@ {
            Ok(ManualPreviewFixtureMode::MixedPlaceholderAndSourceError)
        } else if v == "placeholder-only"@ {
            Ok(ManualPreviewFixtureMode::PlaceholderOnly)
        } else {
            Err(invalid_fixture_mode_message())
        },
    }
}

/// Reads a proof fixture mode by its command-line name.
pub fn parse_four_view_manual_preview_fixture_mode(value: Option<String>) -> (r: Result<
    ManualPreviewFixtureMode,
    String,
>)
    ensures
        match manual_preview_fixture_mode(opt_view(value)) {
            Ok(m) => r == Ok::<ManualPreviewFixtureMode, String>(m),
            Err(m) => r matches Err(e) && e@ == m,
        },
{
    match value {
        None => Ok(ManualPreviewFixtureMode::AllRenderable),
        Some(v) => {
            if str_eq(v.as_str(), "all-renderable") {
                Ok(ManualPreviewFixtureMode::AllRenderable)
            } else if str_eq(v.as_str(), "mixed-placeholder-source-error") {
                Ok(ManualPreviewFixtureMode::MixedPlaceholderAndSourceError)
            } else if str_eq(v.as_str(), "placeholder-only") {
                Ok(ManualPreviewFixtureMode::PlaceholderOnly)
            } else {
                Err(
                    owned(
                        "invalid fixture-mode: expected all-renderable, mixed-placeholder-source-error, or placeholder-only",
                    ),
                )
            }
        },
    }
}

/// The message for a window fixture mode other than all-renderable.
pub open spec fn all_renderable_only_message() -> Seq<char> {
    "invalid fixture-mode: expected all-renderable"@
}

/// Reads the fixture mode of the window commands, which run only the
/// all-renderable fixture; all-renderable when absent.
pub fn parse_four_view_all_renderable_fixture_mode(value: Option<String>) -> (r: Result<
    ManualPreviewFixtureMode,
    String,
>)
    ensures
        match opt_view(value) {
            None => r == Ok::<ManualPreviewFixtureMode, String>(
                ManualPreviewFixtureMode::AllRenderable,
            ),
            Some(v) => if v == "all-renderable"@ {
                r == Ok::<ManualPreviewFixtureMode, String>(ManualPreviewFixtureMode::AllRenderable)
            } else {
                r matches Err(e) && e@ == all_renderable_only_message()
            },
        },
{
    match value {
        None => Ok(ManualPreviewFixtureMode::AllRenderable),
        Some(v) => {
            if str_eq(v.as_str(), "all-renderable") {
                Ok(ManualPreviewFixtureMode::AllRenderable)
            } else {
                Err(owned("invalid fixture-mode: expected all-renderable"))
            }
        },
    }
}

/// Each queue source mode is read back from its own command-line name.
pub proof fn law_handoff_mode_name_round_trip(mode: QueueSourceMode, name: Seq<char>)
    ensures
        handoff_mode_arg(Some(crate::modes::queue_source_mode_name(mode)), name) == Ok::<
            QueueSourceMode,
            Seq<char>,
        >(mode),
{
    reveal_strlit("preview-oldest");
    reveal_strlit("preview-latest");
    reveal_strlit("preview-latest-decodable");
    reveal_strlit("consume-oldest");
    assert("preview-oldest"@[8] != "preview-latest"@[8]);
    assert("consume-oldest"@[0] != "preview-latest"@[0]);
    assert("consume-oldest"@.len() != "preview-latest-decodable"@.len());
}

/// Each proof fixture mode is read back from its own command-line name.
pub proof fn law_fixture_mode_name_round_trip(mode: ManualPreviewFixtureMode)
    ensures
        manual_preview_fixture_mode(Some(crate::modes::fixture_mode_name(mode))) == Ok::<
            ManualPreviewFixtureMode,
            Seq<char>,
        >(mode),
{
    reveal_strlit("all-renderable");
    reveal_strlit("mixed-placeholder-source-error");
    reveal_strlit("placeholder-only");
    assert("mixed-placeholder-source-error"@.len() != "placeholder-only"@.len());
}

/// A real preview loop never consumes a queue: whatever its read-mode
/// argument, the mode it accepts is a preview mode, served by a read that
/// leaves the queue as it is.
pub proof fn law_real_preview_mode_never_dequeues(value: Option<Seq<char>>)
    ensures
        optional_real_handoff_preview_mode(value) matches Ok(m) ==> m != QueueSourceMode::ConsumeOldest
            && crate::modes::read_mode_of(m) != crate::modes::QueuedFrameReadMode::DequeueOldest,
{
}

/// The command source arguments that are accepted, and what they give:
/// none at all read standard input; `--commands` with its script runs the
/// script; `--control-pipe` with a name that is not blank listens on that
/// pipe. Anything else is refused.
pub proof fn law_control_command_source_accepts(args: Seq<Seq<char>>)
    ensures
        control_command_source(args) == Ok::<CommandSourceView, Seq<char>>(CommandSourceView::Stdin)
            <==> args.len() == 0,
        forall|script: Seq<char>|
            #[trigger] control_command_source(args) == Ok::<CommandSourceView, Seq<char>>(
                CommandSourceView::Scripted(script),
            ) <==> args == seq!["--commands"@, script],
        forall|pipe: Seq<char>|
            #[trigger] control_command_source(args) == Ok::<CommandSourceView, Seq<char>>(
                CommandSourceView::ControlPipe(pipe),
            ) <==> args == seq!["--control-pipe"@, pipe] && trim(pipe).len() > 0,
{
    reveal_strlit("--commands");
    reveal_strlit("--control-pipe");
    reveal_with_fuel(control_source_scan, 3);
    assert("--commands"@ != "--control-pipe"@) by {
        assert("--commands"@.len() != "--control-pipe"@.len());
    }
    if args.len() == 2 {
        if args[0] == "--control-pipe"@ {
            assert(args.contains("--control-pipe"@)) by {
                assert(args[0] == "--control-pipe"@);
            }
        }
        if args[0] == "--commands"@ && args.contains("--control-pipe"@) {
            assert(control_source_scan(args, 2, Some(args[1]), None) == Ok::<
                CommandSourceView,
                Seq<char>,
            >(CommandSourceView::Scripted(args[1])));
        }
    }
    assert forall|script: Seq<char>|
        #[trigger] control_command_source(args) == Ok::<CommandSourceView, Seq<char>>(
            CommandSourceView::Scripted(script),
        ) implies args == seq!["--commands"@, script] by {
        if args.contains("--control-pipe"@) {
            if args.len() > 2 {
            }
        }
        assert(args =~= seq!["--commands"@, script]);
    }
    assert forall|pipe: Seq<char>|
        #[trigger] control_command_source(args) == Ok::<CommandSourceView, Seq<char>>(
            CommandSourceView::ControlPipe(pipe),
        ) implies args == seq!["--control-pipe"@, pipe] && trim(pipe).len() > 0 by {
        assert(args =~= seq!["--control-pipe"@, pipe]);
    }
}

} // verus!
