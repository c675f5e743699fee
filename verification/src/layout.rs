use crate::config::Config;
use crate::presence::DeviceState;
use vstd::prelude::*;

verus! {

/// The two arrangements of the displays.
#[derive(Debug, Clone, Copy, PartialEq, Eq, Structural)]
pub enum Layout {
    /// The accessory covers the second panel: the first panel alone.
    Single,
    /// Both panels, the second below the first.
    Dual,
}

/// The pause before the display tool is run, in milliseconds, which lets the
/// display subsystem settle after the plug event.
pub const SETTLE_MILLIS: u64 = 500;

/// The display tool's invocation: the program, its arguments, and the pause
/// to make before it is run.
#[derive(Debug, Clone)]
pub struct DisplayCommand {
    pub program: String,
    pub args: Vec<String>,
    pub settle_millis: u64,
}

/// The texts of a sequence of strings.
pub open spec fn strings(v: Seq<String>) -> Seq<Seq<char>> {
    Seq::new(v.len(), |i: int| v[i]@)
}

/// The layout that a change of presence calls for: the single layout when
/// the accessory arrives, the dual layout when it leaves, and none for any
/// other pair of states.
pub open spec fn layout_for(current: Option<DeviceState>, before: Option<DeviceState>) -> Option<
    Layout,
> {
    match (current, before) {
        (Some(DeviceState::Added), None) => Some(Layout::Single),
        (Some(DeviceState::Added), Some(DeviceState::Removed)) => Some(Layout::Single),
        (Some(DeviceState::Removed), None) => Some(Layout::Dual),
        (Some(DeviceState::Removed), Some(DeviceState::Added)) => Some(Layout::Dual),
        _ => None,
    }
}

/// The arguments that make the first panel the one primary logical monitor.
pub open spec fn single_layout_args(scale: Seq<char>) -> Seq<Seq<char>> {
    seq![
        "set"@,
        "--logical-monitor"@,
        "--primary"@,
        "--scale"@,
        scale,
        "--monitor"@,
        "eDP-1"@,
    ]
}

/// The arguments of the single layout, then those of a second logical
/// monitor on the second panel, below the first.
pub open spec fn dual_layout_args(scale: Seq<char>) -> Seq<Seq<char>> {
    single_layout_args(scale) + seq![
        "--logical-monitor"@,
        "--scale"@,
        scale,
        "--monitor"@,
        "eDP-2"@,
        "--below"@,
        "eDP-1"@,
    ]
}

/// The display tool's arguments for a layout at a scale.
pub open spec fn args_for(layout: Layout, scale: Seq<char>) -> Seq<Seq<char>> {
    match layout {
        Layout::Single => single_layout_args(scale),
        Layout::Dual => dual_layout_args(scale),
    }
}

/// The layout that a change of presence from `before` to `current` calls
/// for, if any.
pub fn choose_layout(current: &Option<DeviceState>, before: &Option<DeviceState>) -> (layout:
    Option<Layout>)
    ensures
        layout == layout_for(*current, *before),
{
    match (current, before) {
        (Some(DeviceState::Added), None) => Some(Layout::Single),
        (Some(DeviceState::Added), Some(DeviceState::Removed)) => Some(Layout::Single),
        (Some(DeviceState::Removed), None) => Some(Layout::Dual),
        (Some(DeviceState::Removed), Some(DeviceState::Added)) => Some(Layout::Dual),
        _ => None,
    }
}

/// The display tool's arguments for `layout` at `scale`.
pub fn layout_args(layout: Layout, scale: &str) -> (args: Vec<String>)
    ensures
        strings(args@) == args_for(layout, scale@),
{
    let mut args: Vec<String> = Vec::new();
    args.push("set".to_owned());
    args.push("--logical-monitor".to_owned());
    args.push("--primary".to_owned());
    args.push("--scale".to_owned());
    args.push(scale.to_owned());
    args.push("--monitor".to_owned());
    args.push("eDP-1".to_owned());
    proof {
        assert(strings(args@) =~= single_layout_args(scale@));
    }
    match layout {
        Layout::Single => {},
        Layout::Dual => {
            args.push("--logical-monitor".to_owned());
            args.push("--scale".to_owned());
            args.push(scale.to_owned());
            args.push("--monitor".to_owned());
            args.push("eDP-2".to_owned());
            args.push("--below".to_owned());
            args.push("eDP-1".to_owned());
            proof {
                assert(strings(args@) =~= dual_layout_args(scale@));
            }
        },
    }
    args
}

/// What a command must be to carry out `layout` at `scale`.
pub open spec fn is_command_for(command: DisplayCommand, layout: Layout, scale: Seq<char>) -> bool {
    &&& command.program@ == "gdctl"@
    &&& strings(command.args@) == args_for(layout, scale)
    &&& command.settle_millis == SETTLE_MILLIS
}

/// The command to run when the presence went from `before` to `current`:
/// that of the layout which the change calls for, at the configured scale,
/// and none where it calls for none.
pub fn handle_if_changed(
    current: &Option<DeviceState>,
    before: &Option<DeviceState>,
    config: &Config,
) -> (command: Option<DisplayCommand>)
    ensures
        command is Some <==> layout_for(*current, *before) is Some,
        command is Some ==> is_command_for(
            command.unwrap(),
            layout_for(*current, *before).unwrap(),
            config.scale@,
        ),
{
    match choose_layout(current, before) {
        Some(layout) => Some(
            DisplayCommand {
                program: "gdctl".to_owned(),
                args: layout_args(layout, config.scale.as_str()),
                settle_millis: SETTLE_MILLIS,
            },
        ),
        None => None,
    }
}

/// Equal states call for no layout.
pub proof fn lemma_no_layout_without_change(state: Option<DeviceState>)
    ensures
        layout_for(state, state) is None,
{
}

/// A change to a known state calls for a layout: the single one when the
/// accessory is there, the dual one when it is not.
pub proof fn lemma_change_has_layout(current: DeviceState, before: Option<DeviceState>)
    requires
        before != Some(current),
    ensures
        current == DeviceState::Added ==> layout_for(Some(current), before) == Some(
            Layout::Single,
        ),
        current == DeviceState::Removed ==> layout_for(Some(current), before) == Some(Layout::Dual),
{
}

} // verus!
