//! Panes: the `herdr pane` commands and the `pane.*` socket requests.
//!
//! Ratios and resize amounts are numbers given by their decimal text.

use vstd::prelude::*;
use crate::client::{CommandLine, HerdrClient, runs};
use crate::json::{includes, lemma_run_at_end, lemma_includes_extend, Json, JsonMember, JsonValue, strs, opt_view, json_members, opt_text_member, opt_bool_member, opt_decimal_member, env_member, lemma_json_members_empty, insert_opt, insert_opt_bool, insert_opt_decimal, insert_env, push_member, text};
use crate::agent::{AgentReadOptions, read_members, push_read_members};
use crate::socket::{SocketRequest, is_request, request1, request2, members1, members2, opt_text, opt_uint, text_or_null, uint_or_null, texts, text_array};
use crate::text::{passes_flag, passes_focus, passes_switch, lemma_flag_passed_at_end, lemma_focus_passed_at_end, lemma_switch_passed_at_end, lemma_passes_flag_extend, lemma_passes_focus_extend, lemma_passes_switch_extend, lemma_passes_flag_prepend, opt_flag, focus_args, env_args, push_opt_flag, push_focus, push_env, push_str, push_arg, args2, args3, args4};

verus! {

/// A direction in the pane layout.
#[derive(Clone, Copy, Debug, Eq, PartialEq, Structural)]
pub enum Direction {
    Left,
    Right,
    Up,
    Down,
}

/// The command-line name of a direction.
pub open spec fn direction_name(d: Direction) -> Seq<char> {
    match d {
        Direction::Left => "left"@,
        Direction::Right => "right"@,
        Direction::Up => "up"@,
        Direction::Down => "down"@,
    }
}

impl Direction {
    /// The name Herdr uses for this direction.
    pub fn as_str(self) -> (s: &'static str)
        ensures
            s@ == direction_name(self),
    {
        match self {
            Direction::Left => "left",
            Direction::Right => "right",
            Direction::Up => "up",
            Direction::Down => "down",
        }
    }
}

/// Which pane a command applies to: a given one, or the current one.
#[derive(Clone, Debug, Eq, PartialEq)]
pub enum PaneSelector {
    Pane(String),
    Current,
}

/// How `pane zoom` changes the zoom.
#[derive(Clone, Copy, Debug, Eq, PartialEq, Structural)]
pub enum PaneZoomMode {
    Toggle,
    On,
    Off,
}

/// The socket name of a zoom mode.
pub open spec fn zoom_mode_name(m: PaneZoomMode) -> Seq<char> {
    match m {
        PaneZoomMode::Toggle => "toggle"@,
        PaneZoomMode::On => "on"@,
        PaneZoomMode::Off => "off"@,
    }
}

/// The command-line flag of a zoom mode.
pub open spec fn zoom_mode_flag(m: PaneZoomMode) -> Seq<char> {
    match m {
        PaneZoomMode::Toggle => "--toggle"@,
        PaneZoomMode::On => "--on"@,
        PaneZoomMode::Off => "--off"@,
    }
}

impl PaneZoomMode {
    /// The name Herdr uses for this mode.
    pub fn as_str(self) -> (s: &'static str)
        ensures
            s@ == zoom_mode_name(self),
    {
        match self {
            PaneZoomMode::Toggle => "toggle",
            PaneZoomMode::On => "on",
            PaneZoomMode::Off => "off",
        }
    }

    /// The command-line flag for this mode.
    pub fn flag(self) -> (s: &'static str)
        ensures
            s@ == zoom_mode_flag(self),
    {
        match self {
            PaneZoomMode::Toggle => "--toggle",
            PaneZoomMode::On => "--on",
            PaneZoomMode::Off => "--off",
        }
    }
}

/// Each zoom mode's command-line flag is `--` followed by the name Herdr
/// uses for that mode, and different modes have different flags.
pub proof fn lemma_zoom_flag_is_dashed_name(m: PaneZoomMode, n: PaneZoomMode)
    ensures
        zoom_mode_flag(m) == "--"@ + zoom_mode_name(m),
        m != n ==> zoom_mode_flag(m) != zoom_mode_flag(n),
{
    reveal_strlit("--");
    reveal_strlit("toggle");
    reveal_strlit("on");
    reveal_strlit("off");
    reveal_strlit("--toggle");
    reveal_strlit("--on");
    reveal_strlit("--off");
    assert(zoom_mode_flag(m) =~= "--"@ + zoom_mode_name(m));
    assert("--toggle"@.len() != "--on"@.len());
    assert("--toggle"@.len() != "--off"@.len());
    assert("--on"@.len() != "--off"@.len());
}

/// Where a plugin pane is placed.
#[derive(Clone, Copy, Debug, Eq, PartialEq, Structural)]
pub enum PluginPanePlacement {
    Overlay,
    Split,
    Tab,
    Zoomed,
}

/// The name of a plugin pane placement.
pub open spec fn placement_name(p: PluginPanePlacement) -> Seq<char> {
    match p {
        PluginPanePlacement::Overlay => "overlay"@,
        PluginPanePlacement::Split => "split"@,
        PluginPanePlacement::Tab => "tab"@,
        PluginPanePlacement::Zoomed => "zoomed"@,
    }
}

impl PluginPanePlacement {
    /// The name Herdr uses for this placement.
    pub fn as_str(self) -> (s: &'static str)
        ensures
            s@ == placement_name(self),
    {
        match self {
            PluginPanePlacement::Overlay => "overlay",
            PluginPanePlacement::Split => "split",
            PluginPanePlacement::Tab => "tab",
            PluginPanePlacement::Zoomed => "zoomed",
        }
    }
}

/// The side a split plugin pane opens on.
#[derive(Clone, Copy, Debug, Eq, PartialEq, Structural)]
pub enum PluginPaneDirection {
    Right,
    Down,
}

/// The name of a plugin pane split direction.
pub open spec fn plugin_direction_name(d: PluginPaneDirection) -> Seq<char> {
    match d {
        PluginPaneDirection::Right => "right"@,
        PluginPaneDirection::Down => "down"@,
    }
}

impl PluginPaneDirection {
    /// The name Herdr uses for this direction.
    pub fn as_str(self) -> (s: &'static str)
        ensures
            s@ == plugin_direction_name(self),
    {
        match self {
            PluginPaneDirection::Right => "right",
            PluginPaneDirection::Down => "down",
        }
    }
}

/// Options of `pane list`.
#[derive(Clone, Debug, Default, Eq, PartialEq)]
pub struct PaneListOptions {
    pub workspace_id: Option<String>,
}

/// Options of `pane split`. `ratio` is the decimal text of the ratio; `cwd` a path.
#[derive(Clone, Debug, PartialEq)]
pub struct PaneSplitOptions {
    pub pane: PaneSelector,
    pub direction: Direction,
    pub ratio: Option<String>,
    pub cwd: Option<String>,
    pub env: Vec<(String, String)>,
    pub focus: Option<bool>,
}

/// Where `pane move` moves a pane. `ratio` is the decimal text of the ratio.
#[derive(Clone, Debug, PartialEq)]
pub enum PaneMoveDestination {
    ExistingTab { tab_id: String, split: Direction, target_pane_id: Option<String>, ratio: Option<String> },
    NewTab { workspace_id: Option<String>, label: Option<String> },
    NewWorkspace { label: Option<String>, tab_label: Option<String> },
}

/// Options of `pane move`.
#[derive(Clone, Debug, PartialEq)]
pub struct PaneMoveOptions {
    pub pane_id: String,
    pub destination: PaneMoveDestination,
    pub focus: Option<bool>,
}

/// Options of `plugin pane open`. `cwd` is a path.
#[derive(Clone, Debug, Eq, PartialEq)]
pub struct PluginPaneOpenOptions {
    pub plugin_id: String,
    pub entrypoint: String,
    pub placement: Option<PluginPanePlacement>,
    pub workspace_id: Option<String>,
    pub target_pane_id: Option<String>,
    pub direction: Option<PluginPaneDirection>,
    pub cwd: Option<String>,
    pub focus: bool,
    pub env: Vec<(String, String)>,
}

/// `--pane ID` or `--current`.
pub open spec fn selector_args(pane: PaneSelector) -> Seq<Seq<char>> {
    match pane {
        PaneSelector::Pane(id) => seq!["--pane"@, id@],
        PaneSelector::Current => seq!["--current"@],
    }
}

/// `ID` or `--current`.
pub open spec fn subject_args(pane: PaneSelector) -> Seq<Seq<char>> {
    match pane {
        PaneSelector::Pane(id) => seq![id@],
        PaneSelector::Current => seq!["--current"@],
    }
}

/// Appends `--pane ID` or `--current`.
pub fn push_selector(args: &mut Vec<String>, pane: PaneSelector)
    ensures
        strs(final(args)@) == strs(old(args)@) + selector_args(pane),
{
    let ghost before = strs(args@);
    let ghost p = pane;
    match pane {
        PaneSelector::Pane(id) => {
            push_str(args, "--pane");
            push_arg(args, id);
        },
        PaneSelector::Current => push_str(args, "--current"),
    }
    assert(strs(args@) =~= before + selector_args(p));
}

/// Appends `ID` or `--current`.
fn push_subject(args: &mut Vec<String>, pane: PaneSelector)
    ensures
        strs(final(args)@) == strs(old(args)@) + subject_args(pane),
{
    let ghost before = strs(args@);
    let ghost p = pane;
    match pane {
        PaneSelector::Pane(id) => push_arg(args, id),
        PaneSelector::Current => push_str(args, "--current"),
    }
    assert(strs(args@) =~= before + subject_args(p));
}

/// The name of the placement, when one is set.
pub open spec fn opt_placement_name(p: Option<PluginPanePlacement>) -> Option<Seq<char>> {
    match p {
        Some(v) => Some(placement_name(v)),
        None => None,
    }
}

/// The name of the split direction, when one is set.
pub open spec fn opt_plugin_direction_name(d: Option<PluginPaneDirection>) -> Option<Seq<char>> {
    match d {
        Some(v) => Some(plugin_direction_name(v)),
        None => None,
    }
}

/// The arguments of `pane split`.
pub open spec fn pane_split_args(o: PaneSplitOptions) -> Seq<Seq<char>> {
    seq!["pane"@, "split"@] + subject_args(o.pane) + seq!["--direction"@, direction_name(o.direction)]
        + opt_flag("--ratio"@, opt_view(o.ratio)) + opt_flag("--cwd"@, opt_view(o.cwd)) + env_args(o.env@)
        + focus_args(o.focus)
}

/// `pane split` hands the direction's name to `--direction`, and every option
/// that is set to its flag: the ratio to `--ratio`, the directory to `--cwd`;
/// and it asks for focus with `--focus` or refuses it with `--no-focus`.
pub proof fn lemma_pane_split_args_pass_options(o: PaneSplitOptions)
    ensures
        passes_flag(pane_split_args(o), "--direction"@, Some(direction_name(o.direction))),
        passes_flag(pane_split_args(o), "--ratio"@, opt_view(o.ratio)),
        passes_flag(pane_split_args(o), "--cwd"@, opt_view(o.cwd)),
        passes_focus(pane_split_args(o), o.focus),
{
    let args = pane_split_args(o);
    let s0 = seq!["pane"@, "split"@];
    let s1 = subject_args(o.pane);
    let s2 = opt_flag("--direction"@, Some(direction_name(o.direction)));
    let s3 = opt_flag("--ratio"@, opt_view(o.ratio));
    let s4 = opt_flag("--cwd"@, opt_view(o.cwd));
    let s5 = env_args(o.env@);
    let s6 = focus_args(o.focus);
    assert(s0 + s1 + s2 + s3 + s4 + s5 + s6 == args);
    assert(passes_flag(args, "--direction"@, Some(direction_name(o.direction)))) by {
        lemma_flag_passed_at_end(s0 + s1, "--direction"@, Some(direction_name(o.direction)));
        lemma_passes_flag_extend(s0 + s1 + s2, s3, "--direction"@, Some(direction_name(o.direction)));
        lemma_passes_flag_extend(s0 + s1 + s2 + s3, s4, "--direction"@, Some(direction_name(o.direction)));
        lemma_passes_flag_extend(s0 + s1 + s2 + s3 + s4, s5, "--direction"@, Some(direction_name(o.direction)));
        lemma_passes_flag_extend(s0 + s1 + s2 + s3 + s4 + s5, s6, "--direction"@, Some(direction_name(o.direction)));
    }
    assert(passes_flag(args, "--ratio"@, opt_view(o.ratio))) by {
        lemma_flag_passed_at_end(s0 + s1 + s2, "--ratio"@, opt_view(o.ratio));
        lemma_passes_flag_extend(s0 + s1 + s2 + s3, s4, "--ratio"@, opt_view(o.ratio));
        lemma_passes_flag_extend(s0 + s1 + s2 + s3 + s4, s5, "--ratio"@, opt_view(o.ratio));
        lemma_passes_flag_extend(s0 + s1 + s2 + s3 + s4 + s5, s6, "--ratio"@, opt_view(o.ratio));
    }
    assert(passes_flag(args, "--cwd"@, opt_view(o.cwd))) by {
        lemma_flag_passed_at_end(s0 + s1 + s2 + s3, "--cwd"@, opt_view(o.cwd));
        lemma_passes_flag_extend(s0 + s1 + s2 + s3 + s4, s5, "--cwd"@, opt_view(o.cwd));
        lemma_passes_flag_extend(s0 + s1 + s2 + s3 + s4 + s5, s6, "--cwd"@, opt_view(o.cwd));
    }
    assert(passes_focus(args, o.focus)) by {
        lemma_focus_passed_at_end(s0 + s1 + s2 + s3 + s4 + s5, o.focus);
    }
}

/// The arguments that name where `pane move` puts a pane.
pub open spec fn destination_args(d: PaneMoveDestination) -> Seq<Seq<char>> {
    match d {
        PaneMoveDestination::ExistingTab { tab_id, split, target_pane_id, ratio } => seq![
            "--tab"@,
            tab_id@,
            "--split"@,
            direction_name(split),
        ] + opt_flag("--target-pane"@, opt_view(target_pane_id)) + opt_flag("--ratio"@, opt_view(ratio)),
        PaneMoveDestination::NewTab { workspace_id, label } => seq!["--new-tab"@] + opt_flag(
            "--workspace"@,
            opt_view(workspace_id),
        ) + opt_flag("--label"@, opt_view(label)),
        PaneMoveDestination::NewWorkspace { label, tab_label } => seq!["--new-workspace"@] + opt_flag(
            "--label"@,
            opt_view(label),
        ) + opt_flag("--tab-label"@, opt_view(tab_label)),
    }
}

/// The arguments of `pane move`.
pub open spec fn pane_move_args(o: PaneMoveOptions) -> Seq<Seq<char>> {
    seq!["pane"@, "move"@, o.pane_id@] + destination_args(o.destination) + focus_args(o.focus)
}

/// `pane move` hands the destination's fields to their flags: for an existing
/// tab, the tab to `--tab`, the split direction's name to `--split`, and the
/// target pane and ratio, when set, to `--target-pane` and `--ratio`; for a
/// new tab, `--new-tab`, with the workspace and label, when set, handed to
/// `--workspace` and `--label`; for a new workspace, `--new-workspace`, with
/// the label and tab label, when set, handed to `--label` and `--tab-label`.
/// It asks for focus with `--focus` or refuses it with `--no-focus`.
pub proof fn lemma_pane_move_args_pass_options(o: PaneMoveOptions)
    ensures
        passes_focus(pane_move_args(o), o.focus),
        match o.destination {
            PaneMoveDestination::ExistingTab { tab_id, split, target_pane_id, ratio } => {
                &&& passes_flag(pane_move_args(o), "--tab"@, Some(tab_id@))
                &&& passes_flag(pane_move_args(o), "--split"@, Some(direction_name(split)))
                &&& passes_flag(pane_move_args(o), "--target-pane"@, opt_view(target_pane_id))
                &&& passes_flag(pane_move_args(o), "--ratio"@, opt_view(ratio))
            },
            PaneMoveDestination::NewTab { workspace_id, label } => {
                &&& pane_move_args(o).contains("--new-tab"@)
                &&& passes_flag(pane_move_args(o), "--workspace"@, opt_view(workspace_id))
                &&& passes_flag(pane_move_args(o), "--label"@, opt_view(label))
            },
            PaneMoveDestination::NewWorkspace { label, tab_label } => {
                &&& pane_move_args(o).contains("--new-workspace"@)
                &&& passes_flag(pane_move_args(o), "--label"@, opt_view(label))
                &&& passes_flag(pane_move_args(o), "--tab-label"@, opt_view(tab_label))
            },
        },
{
    let args = pane_move_args(o);
    let h = seq!["pane"@, "move"@, o.pane_id@];
    let d = destination_args(o.destination);
    let f = focus_args(o.focus);
    assert(h + d + f == args);
    lemma_focus_passed_at_end(h + d, o.focus);
    match o.destination {
        PaneMoveDestination::ExistingTab { tab_id, split, target_pane_id, ratio } => {
            let d0 = opt_flag("--tab"@, Some(tab_id@));
            let d1 = opt_flag("--split"@, Some(direction_name(split)));
            let d2 = opt_flag("--target-pane"@, opt_view(target_pane_id));
            let d3 = opt_flag("--ratio"@, opt_view(ratio));
            assert(d0 + d1 + d2 + d3 == d);
            assert(passes_flag(args, "--tab"@, Some(tab_id@))) by {
                lemma_flag_passed_at_end(Seq::<Seq<char>>::empty(), "--tab"@, Some(tab_id@));
                assert(Seq::<Seq<char>>::empty() + d0 =~= d0);
                lemma_passes_flag_extend(d0, d1, "--tab"@, Some(tab_id@));
                lemma_passes_flag_extend(d0 + d1, d2, "--tab"@, Some(tab_id@));
                lemma_passes_flag_extend(d0 + d1 + d2, d3, "--tab"@, Some(tab_id@));
                lemma_passes_flag_prepend(h, d, "--tab"@, Some(tab_id@));
                lemma_passes_flag_extend(h + d, f, "--tab"@, Some(tab_id@));
            }
            assert(passes_flag(args, "--split"@, Some(direction_name(split)))) by {
                lemma_flag_passed_at_end(d0, "--split"@, Some(direction_name(split)));
                lemma_passes_flag_extend(d0 + d1, d2, "--split"@, Some(direction_name(split)));
                lemma_passes_flag_extend(d0 + d1 + d2, d3, "--split"@, Some(direction_name(split)));
                lemma_passes_flag_prepend(h, d, "--split"@, Some(direction_name(split)));
                lemma_passes_flag_extend(h + d, f, "--split"@, Some(direction_name(split)));
            }
            assert(passes_flag(args, "--target-pane"@, opt_view(target_pane_id))) by {
                lemma_flag_passed_at_end(d0 + d1, "--target-pane"@, opt_view(target_pane_id));
                lemma_passes_flag_extend(d0 + d1 + d2, d3, "--target-pane"@, opt_view(target_pane_id));
                lemma_passes_flag_prepend(h, d, "--target-pane"@, opt_view(target_pane_id));
                lemma_passes_flag_extend(h + d, f, "--target-pane"@, opt_view(target_pane_id));
            }
            assert(passes_flag(args, "--ratio"@, opt_view(ratio))) by {
                lemma_flag_passed_at_end(d0 + d1 + d2, "--ratio"@, opt_view(ratio));
                lemma_passes_flag_prepend(h, d, "--ratio"@, opt_view(ratio));
                lemma_passes_flag_extend(h + d, f, "--ratio"@, opt_view(ratio));
            }
        },
        PaneMoveDestination::NewTab { workspace_id, label } => {
            let d0 = seq!["--new-tab"@];
            let d1 = opt_flag("--workspace"@, opt_view(workspace_id));
            let d2 = opt_flag("--label"@, opt_view(label));
            assert(d0 + d1 + d2 == d);
            assert(args[h.len() as int] == "--new-tab"@);
            assert(passes_flag(args, "--workspace"@, opt_view(workspace_id))) by {
                lemma_flag_passed_at_end(d0, "--workspace"@, opt_view(workspace_id));
                lemma_passes_flag_extend(d0 + d1, d2, "--workspace"@, opt_view(workspace_id));
                lemma_passes_flag_prepend(h, d, "--workspace"@, opt_view(workspace_id));
                lemma_passes_flag_extend(h + d, f, "--workspace"@, opt_view(workspace_id));
            }
            assert(passes_flag(args, "--label"@, opt_view(label))) by {
                lemma_flag_passed_at_end(d0 + d1, "--label"@, opt_view(label));
                lemma_passes_flag_prepend(h, d, "--label"@, opt_view(label));
                lemma_passes_flag_extend(h + d, f, "--label"@, opt_view(label));
            }
        },
        PaneMoveDestination::NewWorkspace { label, tab_label } => {
            let d0 = seq!["--new-workspace"@];
            let d1 = opt_flag("--label"@, opt_view(label));
            let d2 = opt_flag("--tab-label"@, opt_view(tab_label));
            assert(d0 + d1 + d2 == d);
            assert(args[h.len() as int] == "--new-workspace"@);
            assert(passes_flag(args, "--label"@, opt_view(label))) by {
                lemma_flag_passed_at_end(d0, "--label"@, opt_view(label));
                lemma_passes_flag_extend(d0 + d1, d2, "--label"@, opt_view(label));
                lemma_passes_flag_prepend(h, d, "--label"@, opt_view(label));
                lemma_passes_flag_extend(h + d, f, "--label"@, opt_view(label));
            }
            assert(passes_flag(args, "--tab-label"@, opt_view(tab_label))) by {
                lemma_flag_passed_at_end(d0 + d1, "--tab-label"@, opt_view(tab_label));
                lemma_passes_flag_prepend(h, d, "--tab-label"@, opt_view(tab_label));
                lemma_passes_flag_extend(h + d, f, "--tab-label"@, opt_view(tab_label));
            }
        },
    }
}

/// The arguments of `plugin pane open`.
pub open spec fn plugin_pane_open_args(o: PluginPaneOpenOptions) -> Seq<Seq<char>> {
    seq!["plugin"@, "pane"@, "open"@, "--plugin"@, o.plugin_id@, "--entrypoint"@, o.entrypoint@]
        + opt_flag("--placement"@, opt_placement_name(o.placement)) + opt_flag(
        "--workspace"@,
        opt_view(o.workspace_id),
    ) + opt_flag("--target-pane"@, opt_view(o.target_pane_id)) + opt_flag(
        "--direction"@,
        opt_plugin_direction_name(o.direction),
    ) + opt_flag("--cwd"@, opt_view(o.cwd)) + env_args(o.env@) + seq![
        if o.focus { "--focus"@ } else { "--no-focus"@ },
    ]
}

/// `plugin pane open` hands the plugin to `--plugin` and the entrypoint to
/// `--entrypoint`, and every option that is set to its flag: the placement's
/// name to `--placement`, the workspace to `--workspace`, the target pane to
/// `--target-pane`, the direction's name to `--direction`, the directory to
/// `--cwd`; and it asks for focus with `--focus` or refuses it with `--no-focus`.
pub proof fn lemma_plugin_pane_open_args_pass_options(o: PluginPaneOpenOptions)
    ensures
        passes_flag(plugin_pane_open_args(o), "--plugin"@, Some(o.plugin_id@)),
        passes_flag(plugin_pane_open_args(o), "--entrypoint"@, Some(o.entrypoint@)),
        passes_flag(plugin_pane_open_args(o), "--placement"@, opt_placement_name(o.placement)),
        passes_flag(plugin_pane_open_args(o), "--workspace"@, opt_view(o.workspace_id)),
        passes_flag(plugin_pane_open_args(o), "--target-pane"@, opt_view(o.target_pane_id)),
        passes_flag(plugin_pane_open_args(o), "--direction"@, opt_plugin_direction_name(o.direction)),
        passes_flag(plugin_pane_open_args(o), "--cwd"@, opt_view(o.cwd)),
        passes_focus(plugin_pane_open_args(o), Some(o.focus)),
{
    let args = plugin_pane_open_args(o);
    let s0 = seq!["plugin"@, "pane"@, "open"@];
    let s1 = opt_flag("--plugin"@, Some(o.plugin_id@));
    let s2 = opt_flag("--entrypoint"@, Some(o.entrypoint@));
    let s3 = opt_flag("--placement"@, opt_placement_name(o.placement));
    let s4 = opt_flag("--workspace"@, opt_view(o.workspace_id));
    let s5 = opt_flag("--target-pane"@, opt_view(o.target_pane_id));
    let s6 = opt_flag("--direction"@, opt_plugin_direction_name(o.direction));
    let s7 = opt_flag("--cwd"@, opt_view(o.cwd));
    let s8 = env_args(o.env@);
    let s9 = seq![if o.focus { "--focus"@ } else { "--no-focus"@ }];
    assert(s0 + s1 + s2 + s3 + s4 + s5 + s6 + s7 + s8 + s9 == args);
    assert(passes_flag(args, "--plugin"@, Some(o.plugin_id@))) by {
        lemma_flag_passed_at_end(s0, "--plugin"@, Some(o.plugin_id@));
        lemma_passes_flag_extend(s0 + s1, s2, "--plugin"@, Some(o.plugin_id@));
        lemma_passes_flag_extend(s0 + s1 + s2, s3, "--plugin"@, Some(o.plugin_id@));
        lemma_passes_flag_extend(s0 + s1 + s2 + s3, s4, "--plugin"@, Some(o.plugin_id@));
        lemma_passes_flag_extend(s0 + s1 + s2 + s3 + s4, s5, "--plugin"@, Some(o.plugin_id@));
        lemma_passes_flag_extend(s0 + s1 + s2 + s3 + s4 + s5, s6, "--plugin"@, Some(o.plugin_id@));
        lemma_passes_flag_extend(s0 + s1 + s2 + s3 + s4 + s5 + s6, s7, "--plugin"@, Some(o.plugin_id@));
        lemma_passes_flag_extend(s0 + s1 + s2 + s3 + s4 + s5 + s6 + s7, s8, "--plugin"@, Some(o.plugin_id@));
        lemma_passes_flag_extend(s0 + s1 + s2 + s3 + s4 + s5 + s6 + s7 + s8, s9, "--plugin"@, Some(o.plugin_id@));
    }
    assert(passes_flag(args, "--entrypoint"@, Some(o.entrypoint@))) by {
        lemma_flag_passed_at_end(s0 + s1, "--entrypoint"@, Some(o.entrypoint@));
        lemma_passes_flag_extend(s0 + s1 + s2, s3, "--entrypoint"@, Some(o.entrypoint@));
        lemma_passes_flag_extend(s0 + s1 + s2 + s3, s4, "--entrypoint"@, Some(o.entrypoint@));
        lemma_passes_flag_extend(s0 + s1 + s2 + s3 + s4, s5, "--entrypoint"@, Some(o.entrypoint@));
        lemma_passes_flag_extend(s0 + s1 + s2 + s3 + s4 + s5, s6, "--entrypoint"@, Some(o.entrypoint@));
        lemma_passes_flag_extend(s0 + s1 + s2 + s3 + s4 + s5 + s6, s7, "--entrypoint"@, Some(o.entrypoint@));
        lemma_passes_flag_extend(s0 + s1 + s2 + s3 + s4 + s5 + s6 + s7, s8, "--entrypoint"@, Some(o.entrypoint@));
        lemma_passes_flag_extend(s0 + s1 + s2 + s3 + s4 + s5 + s6 + s7 + s8, s9, "--entrypoint"@, Some(o.entrypoint@));
    }
    assert(passes_flag(args, "--placement"@, opt_placement_name(o.placement))) by {
        lemma_flag_passed_at_end(s0 + s1 + s2, "--placement"@, opt_placement_name(o.placement));
        lemma_passes_flag_extend(s0 + s1 + s2 + s3, s4, "--placement"@, opt_placement_name(o.placement));
        lemma_passes_flag_extend(s0 + s1 + s2 + s3 + s4, s5, "--placement"@, opt_placement_name(o.placement));
        lemma_passes_flag_extend(s0 + s1 + s2 + s3 + s4 + s5, s6, "--placement"@, opt_placement_name(o.placement));
        lemma_passes_flag_extend(s0 + s1 + s2 + s3 + s4 + s5 + s6, s7, "--placement"@, opt_placement_name(o.placement));
        lemma_passes_flag_extend(s0 + s1 + s2 + s3 + s4 + s5 + s6 + s7, s8, "--placement"@, opt_placement_name(o.placement));
        lemma_passes_flag_extend(s0 + s1 + s2 + s3 + s4 + s5 + s6 + s7 + s8, s9, "--placement"@, opt_placement_name(o.placement));
    }
    assert(passes_flag(args, "--workspace"@, opt_view(o.workspace_id))) by {
        lemma_flag_passed_at_end(s0 + s1 + s2 + s3, "--workspace"@, opt_view(o.workspace_id));
        lemma_passes_flag_extend(s0 + s1 + s2 + s3 + s4, s5, "--workspace"@, opt_view(o.workspace_id));
        lemma_passes_flag_extend(s0 + s1 + s2 + s3 + s4 + s5, s6, "--workspace"@, opt_view(o.workspace_id));
        lemma_passes_flag_extend(s0 + s1 + s2 + s3 + s4 + s5 + s6, s7, "--workspace"@, opt_view(o.workspace_id));
        lemma_passes_flag_extend(s0 + s1 + s2 + s3 + s4 + s5 + s6 + s7, s8, "--workspace"@, opt_view(o.workspace_id));
        lemma_passes_flag_extend(s0 + s1 + s2 + s3 + s4 + s5 + s6 + s7 + s8, s9, "--workspace"@, opt_view(o.workspace_id));
    }
    assert(passes_flag(args, "--target-pane"@, opt_view(o.target_pane_id))) by {
        lemma_flag_passed_at_end(s0 + s1 + s2 + s3 + s4, "--target-pane"@, opt_view(o.target_pane_id));
        lemma_passes_flag_extend(s0 + s1 + s2 + s3 + s4 + s5, s6, "--target-pane"@, opt_view(o.target_pane_id));
        lemma_passes_flag_extend(s0 + s1 + s2 + s3 + s4 + s5 + s6, s7, "--target-pane"@, opt_view(o.target_pane_id));
        lemma_passes_flag_extend(s0 + s1 + s2 + s3 + s4 + s5 + s6 + s7, s8, "--target-pane"@, opt_view(o.target_pane_id));
        lemma_passes_flag_extend(s0 + s1 + s2 + s3 + s4 + s5 + s6 + s7 + s8, s9, "--target-pane"@, opt_view(o.target_pane_id));
    }
    assert(passes_flag(args, "--direction"@, opt_plugin_direction_name(o.direction))) by {
        lemma_flag_passed_at_end(s0 + s1 + s2 + s3 + s4 + s5, "--direction"@, opt_plugin_direction_name(o.direction));
        lemma_passes_flag_extend(s0 + s1 + s2 + s3 + s4 + s5 + s6, s7, "--direction"@, opt_plugin_direction_name(o.direction));
        lemma_passes_flag_extend(s0 + s1 + s2 + s3 + s4 + s5 + s6 + s7, s8, "--direction"@, opt_plugin_direction_name(o.direction));
        lemma_passes_flag_extend(s0 + s1 + s2 + s3 + s4 + s5 + s6 + s7 + s8, s9, "--direction"@, opt_plugin_direction_name(o.direction));
    }
    assert(passes_flag(args, "--cwd"@, opt_view(o.cwd))) by {
        lemma_flag_passed_at_end(s0 + s1 + s2 + s3 + s4 + s5 + s6, "--cwd"@, opt_view(o.cwd));
        lemma_passes_flag_extend(s0 + s1 + s2 + s3 + s4 + s5 + s6 + s7, s8, "--cwd"@, opt_view(o.cwd));
        lemma_passes_flag_extend(s0 + s1 + s2 + s3 + s4 + s5 + s6 + s7 + s8, s9, "--cwd"@, opt_view(o.cwd));
    }
    assert(passes_focus(args, Some(o.focus))) by {
        assert(s9 =~= focus_args(Some(o.focus)));
        lemma_focus_passed_at_end(s0 + s1 + s2 + s3 + s4 + s5 + s6 + s7 + s8, Some(o.focus));
    }
}

/// The pane commands of a client.
#[derive(Clone, Copy, Debug)]
pub struct PaneClient<'a> {
    client: &'a HerdrClient,
}

impl HerdrClient {
    /// The pane commands of this client.
    pub fn pane(&self) -> (p: PaneClient<'_>)
        ensures
            p.binary() == self.spec_binary(),
    {
        PaneClient::new(self)
    }
}

impl<'a> PaneClient<'a> {
    /// The binary the commands run.
    pub closed spec fn binary(&self) -> Seq<char> {
        self.client.spec_binary()
    }

    /// The sub-client that builds its commands for `client`.
    pub fn new(client: &'a HerdrClient) -> (p: Self)
        ensures
            p.binary() == client.spec_binary(),
    {
        PaneClient { client }
    }

    /// `pane list [--workspace ID]`.
    pub fn list_command(&self, options: PaneListOptions) -> (c: CommandLine)
        ensures
            runs(c, self.binary(), seq!["pane"@, "list"@] + opt_flag("--workspace"@, opt_view(options.workspace_id))),
    {
        let mut args = args2("pane", "list");
        push_opt_flag(&mut args, "--workspace", options.workspace_id);
        self.client.command(args)
    }

    /// `pane current` with the pane selector.
    pub fn current_command(&self, pane: PaneSelector) -> (c: CommandLine)
        ensures
            runs(c, self.binary(), seq!["pane"@, "current"@] + selector_args(pane)),
    {
        let mut args = args2("pane", "current");
        push_selector(&mut args, pane);
        self.client.command(args)
    }

    /// `pane get ID`.
    pub fn get_command(&self, pane_id: &str) -> (c: CommandLine)
        ensures
            runs(c, self.binary(), seq!["pane"@, "get"@, pane_id@]),
    {
        self.client.command(args3("pane", "get", pane_id))
    }

    /// `pane layout` with the pane selector.
    pub fn layout_command(&self, pane: PaneSelector) -> (c: CommandLine)
        ensures
            runs(c, self.binary(), seq!["pane"@, "layout"@] + selector_args(pane)),
    {
        let mut args = args2("pane", "layout");
        push_selector(&mut args, pane);
        self.client.command(args)
    }

    /// `pane process-info` with the pane selector.
    pub fn process_info_command(&self, pane: PaneSelector) -> (c: CommandLine)
        ensures
            runs(c, self.binary(), seq!["pane"@, "process-info"@] + selector_args(pane)),
    {
        let mut args = args2("pane", "process-info");
        push_selector(&mut args, pane);
        self.client.command(args)
    }

    /// `pane neighbor --direction D` with the pane selector.
    pub fn neighbor_command(&self, direction: Direction, pane: PaneSelector) -> (c: CommandLine)
        ensures
            runs(c, self.binary(), seq!["pane"@, "neighbor"@, "--direction"@, direction_name(direction)] + selector_args(pane)),
    {
        let mut args = args4("pane", "neighbor", "--direction", direction.as_str());
        push_selector(&mut args, pane);
        self.client.command(args)
    }

    /// `pane edges` with the pane selector.
    pub fn edges_command(&self, pane: PaneSelector) -> (c: CommandLine)
        ensures
            runs(c, self.binary(), seq!["pane"@, "edges"@] + selector_args(pane)),
    {
        let mut args = args2("pane", "edges");
        push_selector(&mut args, pane);
        self.client.command(args)
    }

    /// `pane focus --direction D` with the pane selector.
    pub fn focus_command(&self, direction: Direction, pane: PaneSelector) -> (c: CommandLine)
        ensures
            runs(c, self.binary(), seq!["pane"@, "focus"@, "--direction"@, direction_name(direction)] + selector_args(pane)),
    {
        let mut args = args4("pane", "focus", "--direction", direction.as_str());
        push_selector(&mut args, pane);
        self.client.command(args)
    }

    /// `pane resize --direction D [--amount A]` with the pane selector; `amount` is decimal text.
    pub fn resize_command(&self, direction: Direction, amount: Option<String>, pane: PaneSelector) -> (c: CommandLine)
        ensures
            runs(
                c,
                self.binary(),
                seq!["pane"@, "resize"@, "--direction"@, direction_name(direction)] + opt_flag("--amount"@, opt_view(amount))
                    + selector_args(pane),
            ),
    {
        let ghost a = amount;
        let mut args = args4("pane", "resize", "--direction", direction.as_str());
        push_opt_flag(&mut args, "--amount", amount);
        push_selector(&mut args, pane);
        assert(strs(args@) =~= seq!["pane"@, "resize"@, "--direction"@, direction_name(direction)] + opt_flag("--amount"@, opt_view(a))
            + selector_args(pane));
        self.client.command(args)
    }

    /// `pane zoom ID|--current --toggle|--on|--off`.
    pub fn zoom_command(&self, pane: PaneSelector, mode: PaneZoomMode) -> (c: CommandLine)
        ensures
            runs(c, self.binary(), seq!["pane"@, "zoom"@] + subject_args(pane) + seq![zoom_mode_flag(mode)]),
            c.spec_args().last() == "--"@ + zoom_mode_name(mode),
    {
        proof {
            lemma_zoom_flag_is_dashed_name(mode, mode);
        }
        let ghost p = pane;
        let mut args = args2("pane", "zoom");
        push_subject(&mut args, pane);
        push_str(&mut args, mode.flag());
        assert(strs(args@) =~= seq!["pane"@, "zoom"@] + subject_args(p) + seq![zoom_mode_flag(mode)]);
        self.client.command(args)
    }

    /// `pane rename ID LABEL`, or `--clear` without a label.
    pub fn rename_command(&self, pane_id: &str, label: Option<&str>) -> (c: CommandLine)
        ensures
            runs(c, self.binary(), seq!["pane"@, "rename"@, pane_id@] + match label {
                Some(l) => seq![l@],
                None => seq!["--clear"@],
            }),
    {
        let mut args = args3("pane", "rename", pane_id);
        match label {
            Some(l) => push_str(&mut args, l),
            None => push_str(&mut args, "--clear"),
        }
        assert(strs(args@) =~= seq!["pane"@, "rename"@, pane_id@] + match label {
            Some(l) => seq![l@],
            None => seq!["--clear"@],
        });
        self.client.command(args)
    }

    /// `pane split ID|--current --direction D`, with `--ratio`, `--cwd`, one
    /// `--env KEY=VALUE` per entry and the focus flag when set.
    pub fn split_command(&self, options: PaneSplitOptions) -> (c: CommandLine)
        ensures
            runs(c, self.binary(), pane_split_args(options)),
    {
        let ghost o = options;
        let mut args = args2("pane", "split");
        push_subject(&mut args, options.pane);
        push_str(&mut args, "--direction");
        push_str(&mut args, options.direction.as_str());
        push_opt_flag(&mut args, "--ratio", options.ratio);
        push_opt_flag(&mut args, "--cwd", options.cwd);
        push_env(&mut args, &options.env);
        push_focus(&mut args, options.focus);
        assert(strs(args@) =~= pane_split_args(o));
        self.client.command(args)
    }

    /// `pane swap --direction D` with the pane selector.
    pub fn swap_direction_command(&self, direction: Direction, pane: PaneSelector) -> (c: CommandLine)
        ensures
            runs(c, self.binary(), seq!["pane"@, "swap"@, "--direction"@, direction_name(direction)] + selector_args(pane)),
    {
        let mut args = args4("pane", "swap", "--direction", direction.as_str());
        push_selector(&mut args, pane);
        self.client.command(args)
    }

    /// `pane swap --source-pane S --target-pane T`.
    pub fn swap_panes_command(&self, source_pane_id: &str, target_pane_id: &str) -> (c: CommandLine)
        ensures
            runs(c, self.binary(), seq!["pane"@, "swap"@, "--source-pane"@, source_pane_id@, "--target-pane"@, target_pane_id@]),
    {
        let mut args = args4("pane", "swap", "--source-pane", source_pane_id);
        push_str(&mut args, "--target-pane");
        push_str(&mut args, target_pane_id);
        assert(strs(args@) =~= seq!["pane"@, "swap"@, "--source-pane"@, source_pane_id@, "--target-pane"@, target_pane_id@]);
        self.client.command(args)
    }

    /// `pane move ID` with the destination's flags and the focus flag.
    pub fn move_pane_command(&self, options: PaneMoveOptions) -> (c: CommandLine)
        ensures
            runs(c, self.binary(), pane_move_args(options)),
    {
        let ghost o = options;
        let mut args = args2("pane", "move");
        push_arg(&mut args, options.pane_id);
        let ghost before = strs(args@);
        match options.destination {
            PaneMoveDestination::ExistingTab { tab_id, split, target_pane_id, ratio } => {
                push_str(&mut args, "--tab");
                push_arg(&mut args, tab_id);
                push_str(&mut args, "--split");
                push_str(&mut args, split.as_str());
                push_opt_flag(&mut args, "--target-pane", target_pane_id);
                push_opt_flag(&mut args, "--ratio", ratio);
            },
            PaneMoveDestination::NewTab { workspace_id, label } => {
                push_str(&mut args, "--new-tab");
                push_opt_flag(&mut args, "--workspace", workspace_id);
                push_opt_flag(&mut args, "--label", label);
            },
            PaneMoveDestination::NewWorkspace { label, tab_label } => {
                push_str(&mut args, "--new-workspace");
                push_opt_flag(&mut args, "--label", label);
                push_opt_flag(&mut args, "--tab-label", tab_label);
            },
        }
        assert(strs(args@) =~= before + destination_args(o.destination));
        push_focus(&mut args, options.focus);
        assert(strs(args@) =~= pane_move_args(o));
        self.client.command(args)
    }

    /// `pane close ID`.
    pub fn close_command(&self, pane_id: &str) -> (c: CommandLine)
        ensures
            runs(c, self.binary(), seq!["pane"@, "close"@, pane_id@]),
    {
        self.client.command(args3("pane", "close", pane_id))
    }

    /// `plugin pane open --plugin P --entrypoint E`, with `--placement`,
    /// `--workspace`, `--target-pane`, `--direction`, `--cwd` and one
    /// `--env KEY=VALUE` per entry when set, then `--focus` or `--no-focus`.
    pub fn open_plugin_pane_command(&self, options: PluginPaneOpenOptions) -> (c: CommandLine)
        ensures
            runs(c, self.binary(), plugin_pane_open_args(options)),
    {
        let ghost o = options;
        let mut args = args4("plugin", "pane", "open", "--plugin");
        push_arg(&mut args, options.plugin_id);
        push_str(&mut args, "--entrypoint");
        push_arg(&mut args, options.entrypoint);
        let placement = match options.placement {
            Some(p) => Some(p.as_str().to_owned()),
            None => None,
        };
        assert(opt_view(placement) == opt_placement_name(o.placement));
        push_opt_flag(&mut args, "--placement", placement);
        push_opt_flag(&mut args, "--workspace", options.workspace_id);
        push_opt_flag(&mut args, "--target-pane", options.target_pane_id);
        let direction = match options.direction {
            Some(d) => Some(d.as_str().to_owned()),
            None => None,
        };
        assert(opt_view(direction) == opt_plugin_direction_name(o.direction));
        push_opt_flag(&mut args, "--direction", direction);
        push_opt_flag(&mut args, "--cwd", options.cwd);
        push_env(&mut args, &options.env);
        if options.focus {
            push_str(&mut args, "--focus");
        } else {
            push_str(&mut args, "--no-focus");
        }
        assert(strs(args@) =~= plugin_pane_open_args(o));
        self.client.command(args)
    }

    /// `plugin pane focus ID`.
    pub fn focus_plugin_pane_command(&self, pane_id: &str) -> (c: CommandLine)
        ensures
            runs(c, self.binary(), seq!["plugin"@, "pane"@, "focus"@, pane_id@]),
    {
        self.client.command(args4("plugin", "pane", "focus", pane_id))
    }

    /// `plugin pane close ID`.
    pub fn close_plugin_pane_command(&self, pane_id: &str) -> (c: CommandLine)
        ensures
            runs(c, self.binary(), seq!["plugin"@, "pane"@, "close"@, pane_id@]),
    {
        self.client.command(args4("plugin", "pane", "close", pane_id))
    }
}

/// `{ pane_id }` for a given pane, `{}` for the current one.
pub open spec fn pane_id_members(pane: PaneSelector) -> Seq<(Seq<char>, Json)> {
    match pane {
        PaneSelector::Pane(id) => seq![("pane_id"@, Json::Text(id@))],
        PaneSelector::Current => Seq::empty(),
    }
}

/// A member `key: ID` for a given pane, nothing for the current one.
fn selector_map(pane: PaneSelector, key: &str) -> (m: Vec<JsonMember>)
    ensures
        json_members(m@) == match pane {
            PaneSelector::Pane(id) => seq![(key@, Json::Text(id@))],
            PaneSelector::Current => Seq::<(Seq<char>, Json)>::empty(),
        },
{
    match pane {
        PaneSelector::Pane(id) => members1(key, JsonValue::Text(id)),
        PaneSelector::Current => {
            let m: Vec<JsonMember> = Vec::new();
            proof {
                lemma_json_members_empty(m@);
            }
            m
        },
    }
}

/// The members that name the pane a request applies to.
pub fn pane_id_map(pane: PaneSelector) -> (m: Vec<JsonMember>)
    ensures
        json_members(m@) == pane_id_members(pane),
{
    selector_map(pane, "pane_id")
}

/// A request about the selected pane with one more text member.
fn pane_request_with(id: &str, method: &str, pane: PaneSelector, key: &str, value: &str) -> (r: SocketRequest)
    ensures
        is_request(r, id@, method@, pane_id_members(pane) + seq![(key@, Json::Text(value@))]),
{
    let mut m = pane_id_map(pane);
    push_member(&mut m, key, text(value));
    assert(json_members(m@) =~= pane_id_members(pane) + seq![(key@, Json::Text(value@))]);
    SocketRequest::with_members(id, method, m)
}

/// The parameters of `pane.split`.
pub open spec fn pane_split_params(o: PaneSplitOptions) -> Seq<(Seq<char>, Json)> {
    (match o.pane {
        PaneSelector::Pane(id) => seq![("target_pane_id"@, Json::Text(id@))],
        PaneSelector::Current => Seq::empty(),
    }) + seq![("direction"@, Json::Text(direction_name(o.direction)))] + opt_decimal_member("ratio"@, opt_view(o.ratio))
        + opt_text_member("cwd"@, opt_view(o.cwd)) + env_member(o.env@) + opt_bool_member("focus"@, o.focus)
}

/// The parameters of `pane.split` carry the pane to split from, the
/// direction's name, and every option that is set: the ratio, the directory,
/// the environment and the focus choice, each under its name.
pub proof fn lemma_pane_split_params_carry_options(o: PaneSplitOptions)
    ensures
        includes(pane_split_params(o), (match o.pane {
        PaneSelector::Pane(id) => seq![("target_pane_id"@, Json::Text(id@))],
        PaneSelector::Current => Seq::empty(),
    })),
        includes(pane_split_params(o), seq![("direction"@, Json::Text(direction_name(o.direction)))]),
        includes(pane_split_params(o), opt_decimal_member("ratio"@, opt_view(o.ratio))),
        includes(pane_split_params(o), opt_text_member("cwd"@, opt_view(o.cwd))),
        includes(pane_split_params(o), env_member(o.env@)),
        includes(pane_split_params(o), opt_bool_member("focus"@, o.focus)),
{
    let params = pane_split_params(o);
    let s0 = (match o.pane {
        PaneSelector::Pane(id) => seq![("target_pane_id"@, Json::Text(id@))],
        PaneSelector::Current => Seq::empty(),
    });
    let s1 = seq![("direction"@, Json::Text(direction_name(o.direction)))];
    let s2 = opt_decimal_member("ratio"@, opt_view(o.ratio));
    let s3 = opt_text_member("cwd"@, opt_view(o.cwd));
    let s4 = env_member(o.env@);
    let s5 = opt_bool_member("focus"@, o.focus);
    assert(s0 + s1 + s2 + s3 + s4 + s5 == params);
    assert(includes(params, s0)) by {
        lemma_run_at_end(Seq::empty(), s0);
        assert(Seq::<(Seq<char>, Json)>::empty() + s0 =~= s0);
        lemma_includes_extend(s0, s1, s0);
        lemma_includes_extend(s0 + s1, s2, s0);
        lemma_includes_extend(s0 + s1 + s2, s3, s0);
        lemma_includes_extend(s0 + s1 + s2 + s3, s4, s0);
        lemma_includes_extend(s0 + s1 + s2 + s3 + s4, s5, s0);
    }
    assert(includes(params, s1)) by {
        lemma_run_at_end(s0, s1);
        lemma_includes_extend(s0 + s1, s2, s1);
        lemma_includes_extend(s0 + s1 + s2, s3, s1);
        lemma_includes_extend(s0 + s1 + s2 + s3, s4, s1);
        lemma_includes_extend(s0 + s1 + s2 + s3 + s4, s5, s1);
    }
    assert(includes(params, s2)) by {
        lemma_run_at_end(s0 + s1, s2);
        lemma_includes_extend(s0 + s1 + s2, s3, s2);
        lemma_includes_extend(s0 + s1 + s2 + s3, s4, s2);
        lemma_includes_extend(s0 + s1 + s2 + s3 + s4, s5, s2);
    }
    assert(includes(params, s3)) by {
        lemma_run_at_end(s0 + s1 + s2, s3);
        lemma_includes_extend(s0 + s1 + s2 + s3, s4, s3);
        lemma_includes_extend(s0 + s1 + s2 + s3 + s4, s5, s3);
    }
    assert(includes(params, s4)) by {
        lemma_run_at_end(s0 + s1 + s2 + s3, s4);
        lemma_includes_extend(s0 + s1 + s2 + s3 + s4, s5, s4);
    }
    assert(includes(params, s5)) by {
        lemma_run_at_end(s0 + s1 + s2 + s3 + s4, s5);
    }
}

/// The JSON form of a move destination.
pub open spec fn destination_json(d: PaneMoveDestination) -> Json {
    match d {
        PaneMoveDestination::ExistingTab { tab_id, split, target_pane_id, ratio } => Json::Object(
            seq![
                ("type"@, Json::Text("tab"@)),
                ("tab_id"@, Json::Text(tab_id@)),
                ("split"@, Json::Text(direction_name(split))),
            ] + opt_text_member("target_pane_id"@, opt_view(target_pane_id)) + opt_decimal_member(
                "ratio"@,
                opt_view(ratio),
            ),
        ),
        PaneMoveDestination::NewTab { workspace_id, label } => Json::Object(
            seq![("type"@, Json::Text("new_tab"@))] + opt_text_member("workspace_id"@, opt_view(workspace_id))
                + opt_text_member("label"@, opt_view(label)),
        ),
        PaneMoveDestination::NewWorkspace { label, tab_label } => Json::Object(
            seq![("type"@, Json::Text("new_workspace"@))] + opt_text_member("label"@, opt_view(label))
                + opt_text_member("tab_label"@, opt_view(tab_label)),
        ),
    }
}

/// The JSON form of a move destination is an object that names the kind of
/// destination under `type` — `tab`, `new_tab` or `new_workspace` — and
/// carries its fields under their names: the tab and the split direction's
/// name, and the target pane and ratio when set, for an existing tab; the
/// workspace and label when set, for a new tab; the label and tab label when
/// set, for a new workspace.
pub proof fn lemma_destination_json_carries_fields(d: PaneMoveDestination)
    ensures
        destination_json(d) is Object,
        match d {
            PaneMoveDestination::ExistingTab { tab_id, split, target_pane_id, ratio } => {
                &&& includes(destination_json(d)->Object_0, seq![("type"@, Json::Text("tab"@)), ("tab_id"@, Json::Text(tab_id@)), ("split"@, Json::Text(direction_name(split)))])
                &&& includes(destination_json(d)->Object_0, opt_text_member("target_pane_id"@, opt_view(target_pane_id)))
                &&& includes(destination_json(d)->Object_0, opt_decimal_member("ratio"@, opt_view(ratio)))
            },
            PaneMoveDestination::NewTab { workspace_id, label } => {
                &&& includes(destination_json(d)->Object_0, seq![("type"@, Json::Text("new_tab"@))])
                &&& includes(destination_json(d)->Object_0, opt_text_member("workspace_id"@, opt_view(workspace_id)))
                &&& includes(destination_json(d)->Object_0, opt_text_member("label"@, opt_view(label)))
            },
            PaneMoveDestination::NewWorkspace { label, tab_label } => {
                &&& includes(destination_json(d)->Object_0, seq![("type"@, Json::Text("new_workspace"@))])
                &&& includes(destination_json(d)->Object_0, opt_text_member("label"@, opt_view(label)))
                &&& includes(destination_json(d)->Object_0, opt_text_member("tab_label"@, opt_view(tab_label)))
            },
        },
{
    match d {
        PaneMoveDestination::ExistingTab { tab_id, split, target_pane_id, ratio } => {
            let m0 = seq![("type"@, Json::Text("tab"@)), ("tab_id"@, Json::Text(tab_id@)), ("split"@, Json::Text(direction_name(split)))];
            let m1 = opt_text_member("target_pane_id"@, opt_view(target_pane_id));
            let m2 = opt_decimal_member("ratio"@, opt_view(ratio));
            let members = destination_json(d)->Object_0;
            assert(m0 + m1 + m2 == members);
            assert(includes(members, m0)) by {
                lemma_run_at_end(Seq::empty(), m0);
                assert(Seq::<(Seq<char>, Json)>::empty() + m0 =~= m0);
                lemma_includes_extend(m0, m1, m0);
                lemma_includes_extend(m0 + m1, m2, m0);
            }
            assert(includes(members, m1)) by {
                lemma_run_at_end(m0, m1);
                lemma_includes_extend(m0 + m1, m2, m1);
            }
            assert(includes(members, m2)) by {
                lemma_run_at_end(m0 + m1, m2);
            }
        },
        PaneMoveDestination::NewTab { workspace_id, label } => {
            let m0 = seq![("type"@, Json::Text("new_tab"@))];
            let m1 = opt_text_member("workspace_id"@, opt_view(workspace_id));
            let m2 = opt_text_member("label"@, opt_view(label));
            let members = destination_json(d)->Object_0;
            assert(m0 + m1 + m2 == members);
            assert(includes(members, m0)) by {
                lemma_run_at_end(Seq::empty(), m0);
                assert(Seq::<(Seq<char>, Json)>::empty() + m0 =~= m0);
                lemma_includes_extend(m0, m1, m0);
                lemma_includes_extend(m0 + m1, m2, m0);
            }
            assert(includes(members, m1)) by {
                lemma_run_at_end(m0, m1);
                lemma_includes_extend(m0 + m1, m2, m1);
            }
            assert(includes(members, m2)) by {
                lemma_run_at_end(m0 + m1, m2);
            }
        },
        PaneMoveDestination::NewWorkspace { label, tab_label } => {
            let m0 = seq![("type"@, Json::Text("new_workspace"@))];
            let m1 = opt_text_member("label"@, opt_view(label));
            let m2 = opt_text_member("tab_label"@, opt_view(tab_label));
            let members = destination_json(d)->Object_0;
            assert(m0 + m1 + m2 == members);
            assert(includes(members, m0)) by {
                lemma_run_at_end(Seq::empty(), m0);
                assert(Seq::<(Seq<char>, Json)>::empty() + m0 =~= m0);
                lemma_includes_extend(m0, m1, m0);
                lemma_includes_extend(m0 + m1, m2, m0);
            }
            assert(includes(members, m1)) by {
                lemma_run_at_end(m0, m1);
                lemma_includes_extend(m0 + m1, m2, m1);
            }
            assert(includes(members, m2)) by {
                lemma_run_at_end(m0 + m1, m2);
            }
        },
    }
}

/// The JSON form of a move destination.
pub fn socket_move_destination(destination: PaneMoveDestination) -> (v: JsonValue)
    ensures
        v.model() == destination_json(destination),
{
    let ghost d = destination;
    match destination {
        PaneMoveDestination::ExistingTab { tab_id, split, target_pane_id, ratio } => {
            let ghost tid = tab_id@;
            let mut m = members1("type", text("tab"));
            push_member(&mut m, "tab_id", JsonValue::Text(tab_id));
            push_member(&mut m, "split", text(split.as_str()));
            assert(json_members(m@) =~= seq![
                ("type"@, Json::Text("tab"@)),
                ("tab_id"@, Json::Text(tid)),
                ("split"@, Json::Text(direction_name(split))),
            ]);
            insert_opt(&mut m, "target_pane_id", target_pane_id);
            insert_opt_decimal(&mut m, "ratio", ratio);
            assert(Json::Object(json_members(m@)) =~= destination_json(d));
            JsonValue::Object(m)
        },
        PaneMoveDestination::NewTab { workspace_id, label } => {
            let mut m = members1("type", text("new_tab"));
            insert_opt(&mut m, "workspace_id", workspace_id);
            insert_opt(&mut m, "label", label);
            assert(Json::Object(json_members(m@)) =~= destination_json(d));
            JsonValue::Object(m)
        },
        PaneMoveDestination::NewWorkspace { label, tab_label } => {
            let mut m = members1("type", text("new_workspace"));
            insert_opt(&mut m, "label", label);
            insert_opt(&mut m, "tab_label", tab_label);
            assert(Json::Object(json_members(m@)) =~= destination_json(d));
            JsonValue::Object(m)
        },
    }
}

/// The parameters of `plugin.pane.open`.
pub open spec fn plugin_pane_open_params(o: PluginPaneOpenOptions) -> Seq<(Seq<char>, Json)> {
    seq![("plugin_id"@, Json::Text(o.plugin_id@)), ("entrypoint"@, Json::Text(o.entrypoint@))]
        + opt_text_member("placement"@, opt_placement_name(o.placement)) + opt_text_member(
        "workspace_id"@,
        opt_view(o.workspace_id),
    ) + opt_text_member("target_pane_id"@, opt_view(o.target_pane_id)) + opt_text_member(
        "direction"@,
        opt_plugin_direction_name(o.direction),
    ) + opt_text_member("cwd"@, opt_view(o.cwd)) + seq![("focus"@, Json::Bool(o.focus))] + env_member(o.env@)
}

/// The parameters of `plugin.pane.open` carry the plugin, the entrypoint, the
/// focus choice, and every option that is set: the placement's name, the
/// workspace, the target pane, the direction's name, the directory and the
/// environment, each under its name.
pub proof fn lemma_plugin_pane_open_params_carry_options(o: PluginPaneOpenOptions)
    ensures
        includes(plugin_pane_open_params(o), seq![("plugin_id"@, Json::Text(o.plugin_id@)), ("entrypoint"@, Json::Text(o.entrypoint@))]),
        includes(plugin_pane_open_params(o), opt_text_member("placement"@, opt_placement_name(o.placement))),
        includes(plugin_pane_open_params(o), opt_text_member("workspace_id"@, opt_view(o.workspace_id))),
        includes(plugin_pane_open_params(o), opt_text_member("target_pane_id"@, opt_view(o.target_pane_id))),
        includes(plugin_pane_open_params(o), opt_text_member("direction"@, opt_plugin_direction_name(o.direction))),
        includes(plugin_pane_open_params(o), opt_text_member("cwd"@, opt_view(o.cwd))),
        includes(plugin_pane_open_params(o), seq![("focus"@, Json::Bool(o.focus))]),
        includes(plugin_pane_open_params(o), env_member(o.env@)),
{
    let params = plugin_pane_open_params(o);
    let s0 = seq![("plugin_id"@, Json::Text(o.plugin_id@)), ("entrypoint"@, Json::Text(o.entrypoint@))];
    let s1 = opt_text_member("placement"@, opt_placement_name(o.placement));
    let s2 = opt_text_member("workspace_id"@, opt_view(o.workspace_id));
    let s3 = opt_text_member("target_pane_id"@, opt_view(o.target_pane_id));
    let s4 = opt_text_member("direction"@, opt_plugin_direction_name(o.direction));
    let s5 = opt_text_member("cwd"@, opt_view(o.cwd));
    let s6 = seq![("focus"@, Json::Bool(o.focus))];
    let s7 = env_member(o.env@);
    assert(s0 + s1 + s2 + s3 + s4 + s5 + s6 + s7 == params);
    assert(includes(params, s0)) by {
        lemma_run_at_end(Seq::empty(), s0);
        assert(Seq::<(Seq<char>, Json)>::empty() + s0 =~= s0);
        lemma_includes_extend(s0, s1, s0);
        lemma_includes_extend(s0 + s1, s2, s0);
        lemma_includes_extend(s0 + s1 + s2, s3, s0);
        lemma_includes_extend(s0 + s1 + s2 + s3, s4, s0);
        lemma_includes_extend(s0 + s1 + s2 + s3 + s4, s5, s0);
        lemma_includes_extend(s0 + s1 + s2 + s3 + s4 + s5, s6, s0);
        lemma_includes_extend(s0 + s1 + s2 + s3 + s4 + s5 + s6, s7, s0);
    }
    assert(includes(params, s1)) by {
        lemma_run_at_end(s0, s1);
        lemma_includes_extend(s0 + s1, s2, s1);
        lemma_includes_extend(s0 + s1 + s2, s3, s1);
        lemma_includes_extend(s0 + s1 + s2 + s3, s4, s1);
        lemma_includes_extend(s0 + s1 + s2 + s3 + s4, s5, s1);
        lemma_includes_extend(s0 + s1 + s2 + s3 + s4 + s5, s6, s1);
        lemma_includes_extend(s0 + s1 + s2 + s3 + s4 + s5 + s6, s7, s1);
    }
    assert(includes(params, s2)) by {
        lemma_run_at_end(s0 + s1, s2);
        lemma_includes_extend(s0 + s1 + s2, s3, s2);
        lemma_includes_extend(s0 + s1 + s2 + s3, s4, s2);
        lemma_includes_extend(s0 + s1 + s2 + s3 + s4, s5, s2);
        lemma_includes_extend(s0 + s1 + s2 + s3 + s4 + s5, s6, s2);
        lemma_includes_extend(s0 + s1 + s2 + s3 + s4 + s5 + s6, s7, s2);
    }
    assert(includes(params, s3)) by {
        lemma_run_at_end(s0 + s1 + s2, s3);
        lemma_includes_extend(s0 + s1 + s2 + s3, s4, s3);
        lemma_includes_extend(s0 + s1 + s2 + s3 + s4, s5, s3);
        lemma_includes_extend(s0 + s1 + s2 + s3 + s4 + s5, s6, s3);
        lemma_includes_extend(s0 + s1 + s2 + s3 + s4 + s5 + s6, s7, s3);
    }
    assert(includes(params, s4)) by {
        lemma_run_at_end(s0 + s1 + s2 + s3, s4);
        lemma_includes_extend(s0 + s1 + s2 + s3 + s4, s5, s4);
        lemma_includes_extend(s0 + s1 + s2 + s3 + s4 + s5, s6, s4);
        lemma_includes_extend(s0 + s1 + s2 + s3 + s4 + s5 + s6, s7, s4);
    }
    assert(includes(params, s5)) by {
        lemma_run_at_end(s0 + s1 + s2 + s3 + s4, s5);
        lemma_includes_extend(s0 + s1 + s2 + s3 + s4 + s5, s6, s5);
        lemma_includes_extend(s0 + s1 + s2 + s3 + s4 + s5 + s6, s7, s5);
    }
    assert(includes(params, s6)) by {
        lemma_run_at_end(s0 + s1 + s2 + s3 + s4 + s5, s6);
        lemma_includes_extend(s0 + s1 + s2 + s3 + s4 + s5 + s6, s7, s6);
    }
    assert(includes(params, s7)) by {
        lemma_run_at_end(s0 + s1 + s2 + s3 + s4 + s5 + s6, s7);
    }
}

/// `pane.list`, filtered to a workspace when one is set.
pub fn socket_list(options: PaneListOptions) -> (r: SocketRequest)
    ensures
        is_request(r, "herdr-plugin:pane:list"@, "pane.list"@, opt_text_member("workspace_id"@, opt_view(options.workspace_id))),
{
    let mut m: Vec<JsonMember> = Vec::new();
    proof {
        lemma_json_members_empty(m@);
    }
    insert_opt(&mut m, "workspace_id", options.workspace_id);
    assert(json_members(m@) =~= opt_text_member("workspace_id"@, opt_view(options.workspace_id)));
    SocketRequest::with_members("herdr-plugin:pane:list", "pane.list", m)
}

/// `pane.current`, with `caller_pane_id` for a given pane.
pub fn socket_current(pane: PaneSelector) -> (r: SocketRequest)
    ensures
        is_request(r, "herdr-plugin:pane:current"@, "pane.current"@, match pane {
            PaneSelector::Pane(id) => seq![("caller_pane_id"@, Json::Text(id@))],
            PaneSelector::Current => Seq::<(Seq<char>, Json)>::empty(),
        }),
{
    SocketRequest::with_members("herdr-plugin:pane:current", "pane.current", selector_map(pane, "caller_pane_id"))
}

/// `pane.get { pane_id }`.
pub fn socket_get(pane_id: &str) -> (r: SocketRequest)
    ensures
        is_request(r, "herdr-plugin:pane:get"@, "pane.get"@, seq![("pane_id"@, Json::Text(pane_id@))]),
{
    request1("herdr-plugin:pane:get", "pane.get", "pane_id", pane_id)
}

/// `pane.focus { pane_id }`.
pub fn socket_focus_pane(pane_id: &str) -> (r: SocketRequest)
    ensures
        is_request(r, "herdr-plugin:pane:focus"@, "pane.focus"@, seq![("pane_id"@, Json::Text(pane_id@))]),
{
    request1("herdr-plugin:pane:focus", "pane.focus", "pane_id", pane_id)
}

/// `pane.layout` for the selected pane.
pub fn socket_layout(pane: PaneSelector) -> (r: SocketRequest)
    ensures
        is_request(r, "herdr-plugin:pane:layout"@, "pane.layout"@, pane_id_members(pane)),
{
    SocketRequest::with_members("herdr-plugin:pane:layout", "pane.layout", pane_id_map(pane))
}

/// `pane.process_info` for the selected pane.
pub fn socket_process_info(pane: PaneSelector) -> (r: SocketRequest)
    ensures
        is_request(r, "herdr-plugin:pane:process_info"@, "pane.process_info"@, pane_id_members(pane)),
{
    SocketRequest::with_members("herdr-plugin:pane:process_info", "pane.process_info", pane_id_map(pane))
}

/// `pane.neighbor` for the selected pane and a direction.
pub fn socket_neighbor(direction: Direction, pane: PaneSelector) -> (r: SocketRequest)
    ensures
        is_request(r, "herdr-plugin:pane:neighbor"@, "pane.neighbor"@, pane_id_members(pane) + seq![("direction"@, Json::Text(direction_name(direction)))]),
{
    pane_request_with("herdr-plugin:pane:neighbor", "pane.neighbor", pane, "direction", direction.as_str())
}

/// `pane.edges` for the selected pane.
pub fn socket_edges(pane: PaneSelector) -> (r: SocketRequest)
    ensures
        is_request(r, "herdr-plugin:pane:edges"@, "pane.edges"@, pane_id_members(pane)),
{
    SocketRequest::with_members("herdr-plugin:pane:edges", "pane.edges", pane_id_map(pane))
}

/// `pane.focus_direction` for the selected pane and a direction.
pub fn socket_focus(direction: Direction, pane: PaneSelector) -> (r: SocketRequest)
    ensures
        is_request(r, "herdr-plugin:pane:focus_direction"@, "pane.focus_direction"@, pane_id_members(pane) + seq![("direction"@, Json::Text(direction_name(direction)))]),
{
    pane_request_with("herdr-plugin:pane:focus_direction", "pane.focus_direction", pane, "direction", direction.as_str())
}

/// `pane.resize` for the selected pane, a direction and an optional amount (decimal text).
pub fn socket_resize(direction: Direction, amount: Option<String>, pane: PaneSelector) -> (r: SocketRequest)
    ensures
        is_request(
            r,
            "herdr-plugin:pane:resize"@,
            "pane.resize"@,
            pane_id_members(pane) + seq![("direction"@, Json::Text(direction_name(direction)))] + opt_decimal_member(
                "amount"@,
                opt_view(amount),
            ),
        ),
{
    let ghost a = amount;
    let mut m = pane_id_map(pane);
    push_member(&mut m, "direction", text(direction.as_str()));
    insert_opt_decimal(&mut m, "amount", amount);
    assert(json_members(m@) =~= pane_id_members(pane) + seq![("direction"@, Json::Text(direction_name(direction)))] + opt_decimal_member(
        "amount"@,
        opt_view(a),
    ));
    SocketRequest::with_members("herdr-plugin:pane:resize", "pane.resize", m)
}

/// `pane.zoom` for the selected pane and a mode.
pub fn socket_zoom(pane: PaneSelector, mode: PaneZoomMode) -> (r: SocketRequest)
    ensures
        is_request(r, "herdr-plugin:pane:zoom"@, "pane.zoom"@, pane_id_members(pane) + seq![("mode"@, Json::Text(zoom_mode_name(mode)))]),
{
    pane_request_with("herdr-plugin:pane:zoom", "pane.zoom", pane, "mode", mode.as_str())
}

/// `pane.rename { pane_id, label }`, `label` being `null` to clear it.
pub fn socket_rename(pane_id: &str, label: Option<&str>) -> (r: SocketRequest)
    ensures
        is_request(r, "herdr-plugin:pane:rename"@, "pane.rename"@, seq![("pane_id"@, Json::Text(pane_id@)), ("label"@, text_or_null(match label {
            Some(l) => Some(l@),
            None => None,
        }))]),
{
    let m = members2("pane_id", text(pane_id), "label", opt_text(label));
    assert(json_members(m@) =~= seq![("pane_id"@, Json::Text(pane_id@)), ("label"@, text_or_null(match label {
        Some(l) => Some(l@),
        None => None,
    }))]);
    SocketRequest::with_members("herdr-plugin:pane:rename", "pane.rename", m)
}

/// `pane.split` with the target pane, the direction and the options that are
/// set; `env` only when not empty.
pub fn socket_split(options: PaneSplitOptions) -> (r: SocketRequest)
    ensures
        is_request(r, "herdr-plugin:pane:split"@, "pane.split"@, pane_split_params(options)),
{
    let ghost o = options;
    let mut m = selector_map(options.pane, "target_pane_id");
    push_member(&mut m, "direction", text(options.direction.as_str()));
    insert_opt_decimal(&mut m, "ratio", options.ratio);
    insert_opt(&mut m, "cwd", options.cwd);
    insert_env(&mut m, options.env);
    insert_opt_bool(&mut m, "focus", options.focus);
    assert(json_members(m@) =~= pane_split_params(o));
    SocketRequest::with_members("herdr-plugin:pane:split", "pane.split", m)
}

/// `pane.swap` for the selected pane and a direction.
pub fn socket_swap_direction(direction: Direction, pane: PaneSelector) -> (r: SocketRequest)
    ensures
        is_request(r, "herdr-plugin:pane:swap"@, "pane.swap"@, pane_id_members(pane) + seq![("direction"@, Json::Text(direction_name(direction)))]),
{
    pane_request_with("herdr-plugin:pane:swap", "pane.swap", pane, "direction", direction.as_str())
}

/// `pane.swap { source_pane_id, target_pane_id }`.
pub fn socket_swap_panes(source_pane_id: &str, target_pane_id: &str) -> (r: SocketRequest)
    ensures
        is_request(r, "herdr-plugin:pane:swap"@, "pane.swap"@, seq![("source_pane_id"@, Json::Text(source_pane_id@)), ("target_pane_id"@, Json::Text(target_pane_id@))]),
{
    request2("herdr-plugin:pane:swap", "pane.swap", "source_pane_id", source_pane_id, "target_pane_id", target_pane_id)
}

/// `pane.move { pane_id, destination, focus }`, focus being false unless set.
pub fn socket_move_pane(options: PaneMoveOptions) -> (r: SocketRequest)
    ensures
        is_request(r, "herdr-plugin:pane:move"@, "pane.move"@, seq![
            ("pane_id"@, Json::Text(options.pane_id@)),
            ("destination"@, destination_json(options.destination)),
            ("focus"@, Json::Bool(options.focus == Some(true))),
        ]),
{
    let ghost o = options;
    let focus = match options.focus {
        Some(f) => f,
        None => false,
    };
    let mut m = members2("pane_id", JsonValue::Text(options.pane_id), "destination", socket_move_destination(options.destination));
    push_member(&mut m, "focus", JsonValue::Bool(focus));
    assert(json_members(m@) =~= seq![
        ("pane_id"@, Json::Text(o.pane_id@)),
        ("destination"@, destination_json(o.destination)),
        ("focus"@, Json::Bool(o.focus == Some(true))),
    ]);
    SocketRequest::with_members("herdr-plugin:pane:move", "pane.move", m)
}

/// `pane.send_text { pane_id, text }`.
pub fn socket_send_text(pane_id: &str, text_value: &str) -> (r: SocketRequest)
    ensures
        is_request(r, "herdr-plugin:pane:send_text"@, "pane.send_text"@, seq![("pane_id"@, Json::Text(pane_id@)), ("text"@, Json::Text(text_value@))]),
{
    request2("herdr-plugin:pane:send_text", "pane.send_text", "pane_id", pane_id, "text", text_value)
}

/// `pane.send_keys { pane_id, keys }`.
pub fn socket_send_keys(pane_id: &str, keys: Vec<String>) -> (r: SocketRequest)
    ensures
        is_request(r, "herdr-plugin:pane:send_keys"@, "pane.send_keys"@, seq![("pane_id"@, Json::Text(pane_id@)), ("keys"@, text_array(keys@))]),
{
    SocketRequest::with_members("herdr-plugin:pane:send_keys", "pane.send_keys", members2("pane_id", text(pane_id), "keys", texts(keys)))
}

/// `pane.send_input { pane_id, text, keys }`.
pub fn socket_send_input(pane_id: &str, text_value: String, keys: Vec<String>) -> (r: SocketRequest)
    ensures
        is_request(r, "herdr-plugin:pane:send_input"@, "pane.send_input"@, seq![
            ("pane_id"@, Json::Text(pane_id@)),
            ("text"@, Json::Text(text_value@)),
            ("keys"@, text_array(keys@)),
        ]),
{
    let ghost t = text_value@;
    let ghost k = keys@;
    let mut m = members2("pane_id", text(pane_id), "text", JsonValue::Text(text_value));
    push_member(&mut m, "keys", texts(keys));
    assert(json_members(m@) =~= seq![
        ("pane_id"@, Json::Text(pane_id@)),
        ("text"@, Json::Text(t)),
        ("keys"@, text_array(k)),
    ]);
    SocketRequest::with_members("herdr-plugin:pane:send_input", "pane.send_input", m)
}

/// `pane.read { pane_id, ... }`.
pub fn socket_read(pane_id: &str, options: AgentReadOptions) -> (r: SocketRequest)
    ensures
        is_request(r, "herdr-plugin:pane:read"@, "pane.read"@, seq![("pane_id"@, Json::Text(pane_id@))] + read_members(options)),
{
    let mut m = members1("pane_id", text(pane_id));
    push_read_members(&mut m, options);
    SocketRequest::with_members("herdr-plugin:pane:read", "pane.read", m)
}

/// `pane.report_agent` with caller-given parameters.
pub fn socket_report_agent(params: JsonValue) -> (r: SocketRequest)
    ensures
        r.id@ == "herdr-plugin:pane:report_agent"@,
        r.method@ == "pane.report_agent"@,
        r.params == params,
{
    SocketRequest::new("herdr-plugin:pane:report_agent", "pane.report_agent", params)
}

/// `pane.report_agent_session` with caller-given parameters.
pub fn socket_report_agent_session(params: JsonValue) -> (r: SocketRequest)
    ensures
        r.id@ == "herdr-plugin:pane:report_agent_session"@,
        r.method@ == "pane.report_agent_session"@,
        r.params == params,
{
    SocketRequest::new("herdr-plugin:pane:report_agent_session", "pane.report_agent_session", params)
}

/// `pane.report_metadata` with caller-given parameters.
pub fn socket_report_metadata(params: JsonValue) -> (r: SocketRequest)
    ensures
        r.id@ == "herdr-plugin:pane:report_metadata"@,
        r.method@ == "pane.report_metadata"@,
        r.params == params,
{
    SocketRequest::new("herdr-plugin:pane:report_metadata", "pane.report_metadata", params)
}

/// `pane.wait_for_output` with caller-given parameters.
pub fn socket_wait_for_output(params: JsonValue) -> (r: SocketRequest)
    ensures
        r.id@ == "herdr-plugin:pane:wait_for_output"@,
        r.method@ == "pane.wait_for_output"@,
        r.params == params,
{
    SocketRequest::new("herdr-plugin:pane:wait_for_output", "pane.wait_for_output", params)
}

/// `pane.clear_agent_authority { pane_id, source, seq }`, absent values being `null`.
pub fn socket_clear_agent_authority(pane_id: &str, source: Option<&str>, seq_no: Option<u64>) -> (r: SocketRequest)
    ensures
        is_request(r, "herdr-plugin:pane:clear_agent_authority"@, "pane.clear_agent_authority"@, seq![
            ("pane_id"@, Json::Text(pane_id@)),
            ("source"@, text_or_null(match source {
                Some(s) => Some(s@),
                None => None,
            })),
            ("seq"@, uint_or_null(seq_no)),
        ]),
{
    let mut m = members2("pane_id", text(pane_id), "source", opt_text(source));
    push_member(&mut m, "seq", opt_uint(seq_no));
    assert(json_members(m@) =~= seq![
        ("pane_id"@, Json::Text(pane_id@)),
        ("source"@, text_or_null(match source {
            Some(s) => Some(s@),
            None => None,
        })),
        ("seq"@, uint_or_null(seq_no)),
    ]);
    SocketRequest::with_members("herdr-plugin:pane:clear_agent_authority", "pane.clear_agent_authority", m)
}

/// `pane.release_agent { pane_id, source, agent, seq }`, an absent `seq` being `null`.
pub fn socket_release_agent(pane_id: &str, source: &str, agent: &str, seq_no: Option<u64>) -> (r: SocketRequest)
    ensures
        is_request(r, "herdr-plugin:pane:release_agent"@, "pane.release_agent"@, seq![
            ("pane_id"@, Json::Text(pane_id@)),
            ("source"@, Json::Text(source@)),
            ("agent"@, Json::Text(agent@)),
            ("seq"@, uint_or_null(seq_no)),
        ]),
{
    let mut m = members2("pane_id", text(pane_id), "source", text(source));
    push_member(&mut m, "agent", text(agent));
    push_member(&mut m, "seq", opt_uint(seq_no));
    assert(json_members(m@) =~= seq![
        ("pane_id"@, Json::Text(pane_id@)),
        ("source"@, Json::Text(source@)),
        ("agent"@, Json::Text(agent@)),
        ("seq"@, uint_or_null(seq_no)),
    ]);
    SocketRequest::with_members("herdr-plugin:pane:release_agent", "pane.release_agent", m)
}

/// `pane.close { pane_id }`.
pub fn socket_close(pane_id: &str) -> (r: SocketRequest)
    ensures
        is_request(r, "herdr-plugin:pane:close"@, "pane.close"@, seq![("pane_id"@, Json::Text(pane_id@))]),
{
    request1("herdr-plugin:pane:close", "pane.close", "pane_id", pane_id)
}

/// `plugin.pane.open` with the plugin, the entrypoint, the options that are
/// set, `focus`, and `env` when not empty.
pub fn socket_open_plugin_pane(options: PluginPaneOpenOptions) -> (r: SocketRequest)
    ensures
        is_request(r, "herdr-plugin:plugin:pane:open"@, "plugin.pane.open"@, plugin_pane_open_params(options)),
{
    let ghost o = options;
    let mut m = members2("plugin_id", JsonValue::Text(options.plugin_id), "entrypoint", JsonValue::Text(options.entrypoint));
    let placement = match options.placement {
        Some(p) => Some(p.as_str().to_owned()),
        None => None,
    };
    assert(opt_view(placement) == opt_placement_name(o.placement));
    insert_opt(&mut m, "placement", placement);
    insert_opt(&mut m, "workspace_id", options.workspace_id);
    insert_opt(&mut m, "target_pane_id", options.target_pane_id);
    let direction = match options.direction {
        Some(d) => Some(d.as_str().to_owned()),
        None => None,
    };
    assert(opt_view(direction) == opt_plugin_direction_name(o.direction));
    insert_opt(&mut m, "direction", direction);
    insert_opt(&mut m, "cwd", options.cwd);
    push_member(&mut m, "focus", JsonValue::Bool(options.focus));
    insert_env(&mut m, options.env);
    assert(json_members(m@) =~= plugin_pane_open_params(o));
    SocketRequest::with_members("herdr-plugin:plugin:pane:open", "plugin.pane.open", m)
}

/// `plugin.pane.focus { pane_id }`.
pub fn socket_focus_plugin_pane(pane_id: &str) -> (r: SocketRequest)
    ensures
        is_request(r, "herdr-plugin:plugin:pane:focus"@, "plugin.pane.focus"@, seq![("pane_id"@, Json::Text(pane_id@))]),
{
    request1("herdr-plugin:plugin:pane:focus", "plugin.pane.focus", "pane_id", pane_id)
}

/// `plugin.pane.close { pane_id }`.
pub fn socket_close_plugin_pane(pane_id: &str) -> (r: SocketRequest)
    ensures
        is_request(r, "herdr-plugin:plugin:pane:close"@, "plugin.pane.close"@, seq![("pane_id"@, Json::Text(pane_id@))]),
{
    request1("herdr-plugin:plugin:pane:close", "plugin.pane.close", "pane_id", pane_id)
}

} // verus!
