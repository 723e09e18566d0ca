//! The diagnostics overlay: an edge-triggered enabled/disabled state machine
//! whose UI subtree lives exactly as long as the enabled state, and a
//! per-frame update that renders four metric readings into its text leaves.

use vstd::prelude::*;

use crate::console::{Rgba, ToggleKey};
use crate::text::{dec_rep, u64_to_string};

verus! {

/// Whether the diagnostics overlay is shown. Exactly one instance exists,
/// process-wide; transitions are edge-triggered by a hotkey, never time-based.
#[derive(Clone, Copy, Debug, PartialEq, Eq, Structural)]
pub enum DiagnosticsState {
    Enabled,
    Disabled,
}

impl Default for DiagnosticsState {
    /// The overlay starts out disabled.
    fn default() -> (r: DiagnosticsState)
        ensures
            r == DiagnosticsState::Disabled,
    {
        DiagnosticsState::Disabled
    }
}

/// One text leaf of the overlay tree.
pub struct TextLeaf {
    pub text: String,
    pub font_size: u32,
    pub color: Rgba,
}

/// The overlay's UI subtree: a positioned container and four text leaves.
/// Its lifetime is bound to `DiagnosticsState::Enabled`; after creation only
/// the four texts are ever mutated.
pub struct DiagnosticsTree {
    pub top: u32,
    pub left: u32,
    pub row_gap: u32,
    pub padding: u32,
    pub background_color: Rgba,
    pub fps: TextLeaf,
    pub entities: TextLeaf,
    pub memory: TextLeaf,
    pub render: TextLeaf,
}

/// The process-memory diagnostic as the host reports it: not supported on
/// this platform at all, supported but not yet sampled, or a byte count.
#[derive(Clone, Copy, Debug, PartialEq, Eq, Structural)]
pub enum MemoryReading {
    Unsupported,
    NoSample,
    Bytes(u64),
}

/// One frame's metric readings. Smoothed values arrive as plain integers:
/// frames per second in tenths, the entity count rounded to a whole number.
/// An absent value means "no sample yet".
pub struct MetricsSnapshot {
    pub fps_tenths: Option<u64>,
    pub entity_count: Option<u64>,
    pub memory: MemoryReading,
}

/// The FPS label for a smoothed reading of `tenths / 10` frames per second,
/// shown with one decimal.
pub open spec fn fps_text_image(tenths: int) -> Seq<char> {
    "FPS: "@ + dec_rep(tenths / 10) + "."@ + dec_rep(tenths % 10)
}

/// The entity-count label, shown with no decimals.
pub open spec fn entities_text_image(count: int) -> Seq<char> {
    "Entities: "@ + dec_rep(count)
}

/// Process memory in tenths of a gigabyte (2^30 bytes), rounded to nearest
/// with halves up.
pub open spec fn mem_gb_tenths(bytes: int) -> int {
    (bytes * 10 + 0x20000000) / 0x40000000
}

/// The memory label for a byte count, shown in gigabytes with one decimal.
pub open spec fn memory_text_image(bytes: int) -> Seq<char> {
    "Total Memory: "@ + dec_rep(mem_gb_tenths(bytes) / 10) + "."@ + dec_rep(
        mem_gb_tenths(bytes) % 10,
    ) + " GB"@
}

/// Renders the FPS label.
pub fn fps_text(tenths: u64) -> (s: String)
    ensures
        s@ == fps_text_image(tenths as int),
{
    let whole = u64_to_string(tenths / 10);
    let frac = u64_to_string(tenths % 10);
    String::from_str("FPS: ").concat(whole.as_str()).concat(".").concat(frac.as_str())
}

/// Renders the entity-count label.
pub fn entities_text(count: u64) -> (s: String)
    ensures
        s@ == entities_text_image(count as int),
{
    String::from_str("Entities: ").concat(u64_to_string(count).as_str())
}

/// Renders the memory label from a byte count.
pub fn memory_text(bytes: u64) -> (s: String)
    ensures
        s@ == memory_text_image(bytes as int),
{
    let tenths_wide: u128 = ((bytes as u128) * 10 + 0x20000000) / 0x40000000;
    let tenths: u64 = tenths_wide as u64;
    proof {
        assert(tenths == mem_gb_tenths(bytes as int));
    }
    let whole = u64_to_string(tenths / 10);
    let frac = u64_to_string(tenths % 10);
    String::from_str("Total Memory: ").concat(whole.as_str()).concat(".").concat(frac.as_str())
        .concat(" GB")
}

/// The overlay tree as it is first spawned: placeholders everywhere, the
/// container pinned to the top-left.
pub open spec fn tree_initial(t: DiagnosticsTree) -> bool {
    &&& t.top == 10 && t.left == 10 && t.row_gap == 5 && t.padding == 10
    &&& t.background_color == (Rgba { red: 0, green: 0, blue: 0, alpha: 178 })
    &&& t.fps.text@ == "FPS: --"@ && t.fps.font_size == 18 && t.fps.color == (Rgba {
        red: 51,
        green: 255,
        blue: 51,
        alpha: 255,
    })
    &&& t.entities.text@ == "Entities: --"@ && t.entities.font_size == 16 && t.entities.color == (
    Rgba { red: 51, green: 204, blue: 255, alpha: 255 })
    &&& t.memory.text@ == "Memory: --"@ && t.memory.font_size == 16 && t.memory.color == (Rgba {
        red: 255,
        green: 204,
        blue: 51,
        alpha: 255,
    })
    &&& t.render.text@ == "Render: --"@ && t.render.font_size == 16 && t.render.color == (Rgba {
        red: 255,
        green: 204,
        blue: 51,
        alpha: 255,
    })
}

/// How one frame's readings rewrite the four texts: a present sample is
/// rendered, an absent one leaves the previous text unchanged, and an
/// unsupported memory diagnostic shows a fixed sentinel distinct from the
/// "no update yet" placeholder. The render leaf is an intentional stub with
/// no wired metric source; its text never changes.
pub open spec fn tree_updated(
    pre: DiagnosticsTree,
    post: DiagnosticsTree,
    metrics: MetricsSnapshot,
) -> bool {
    &&& post.fps.text@ == (match metrics.fps_tenths {
        Some(v) => fps_text_image(v as int),
        None => pre.fps.text@,
    })
    &&& post.entities.text@ == (match metrics.entity_count {
        Some(v) => entities_text_image(v as int),
        None => pre.entities.text@,
    })
    &&& post.memory.text@ == (match metrics.memory {
        MemoryReading::Bytes(b) => memory_text_image(b as int),
        MemoryReading::NoSample => pre.memory.text@,
        MemoryReading::Unsupported => "Memory: N/A"@,
    })
    &&& post.render.text@ == pre.render.text@
    &&& post.top == pre.top && post.left == pre.left && post.row_gap == pre.row_gap && post.padding
        == pre.padding && post.background_color == pre.background_color
    &&& post.fps.font_size == pre.fps.font_size && post.fps.color == pre.fps.color
    &&& post.entities.font_size == pre.entities.font_size && post.entities.color
        == pre.entities.color
    &&& post.memory.font_size == pre.memory.font_size && post.memory.color == pre.memory.color
    &&& post.render.font_size == pre.render.font_size && post.render.color == pre.render.color
}

/// What one edge-press of the hotkey does to the overlay: the state flips
/// unconditionally, the tree is created whole on entry to `Enabled` and
/// destroyed whole on exit, with no partial teardown observable afterward.
pub open spec fn toggle_step(pre: DiagnosticsUi, post: DiagnosticsUi) -> bool {
    &&& post.state == (if pre.state == DiagnosticsState::Enabled {
        DiagnosticsState::Disabled
    } else {
        DiagnosticsState::Enabled
    })
    &&& (post.state == DiagnosticsState::Enabled ==> match post.tree {
        Some(t) => tree_initial(t),
        None => false,
    })
    &&& (post.state == DiagnosticsState::Disabled ==> post.tree is None)
    &&& post.hotkey == pre.hotkey
}

/// The diagnostics overlay: its dedicated hotkey, its toggle state, and the
/// UI subtree scoped to that state.
pub struct DiagnosticsUi {
    pub hotkey: ToggleKey,
    pub state: DiagnosticsState,
    pub tree: Option<DiagnosticsTree>,
}

impl DiagnosticsUi {
    /// Well-formed: the subtree exists exactly while the overlay is enabled.
    pub open spec fn wf(&self) -> bool {
        self.tree is Some <==> self.state == DiagnosticsState::Enabled
    }

    /// A fresh overlay: disabled, with no UI subtree alive, toggled by its
    /// dedicated hotkey.
    pub fn new() -> (ui: DiagnosticsUi)
        ensures
            ui.wf(),
            ui.hotkey == ToggleKey::FunctionTwo,
            ui.state == DiagnosticsState::Disabled,
            ui.tree is None,
    {
        DiagnosticsUi {
            hotkey: ToggleKey::FunctionTwo,
            state: DiagnosticsState::default(),
            tree: None,
        }
    }

    /// Builds the overlay subtree as spawned on entry to `Enabled`: the
    /// container in the top-left and the four placeholder text leaves.
    pub fn spawn_driver() -> (t: DiagnosticsTree)
        ensures
            tree_initial(t),
    {
        DiagnosticsTree {
            top: 10,
            left: 10,
            row_gap: 5,
            padding: 10,
            background_color: Rgba { red: 0, green: 0, blue: 0, alpha: 178 },
            fps: TextLeaf {
                text: String::from_str("FPS: --"),
                font_size: 18,
                color: Rgba { red: 51, green: 255, blue: 51, alpha: 255 },
            },
            entities: TextLeaf {
                text: String::from_str("Entities: --"),
                font_size: 16,
                color: Rgba { red: 51, green: 204, blue: 255, alpha: 255 },
            },
            memory: TextLeaf {
                text: String::from_str("Memory: --"),
                font_size: 16,
                color: Rgba { red: 255, green: 204, blue: 51, alpha: 255 },
            },
            render: TextLeaf {
                text: String::from_str("Render: --"),
                font_size: 16,
                color: Rgba { red: 255, green: 204, blue: 51, alpha: 255 },
            },
        }
    }

    /// The hotkey phase: on an edge-press the state flips unconditionally;
    /// entering `Enabled` spawns the subtree and leaving it destroys the
    /// subtree atomically. Without an edge-press nothing changes.
    pub fn toggle(&mut self, key_just_pressed: bool)
        requires
            old(self).wf(),
        ensures
            final(self).wf(),
            key_just_pressed ==> toggle_step(*old(self), *final(self)),
            !key_just_pressed ==> *final(self) == *old(self),
    {
        if key_just_pressed {
            match self.state {
                DiagnosticsState::Enabled => {
                    self.state = DiagnosticsState::Disabled;
                    self.tree = None;
                },
                DiagnosticsState::Disabled => {
                    self.state = DiagnosticsState::Enabled;
                    self.tree = Some(Self::spawn_driver());
                },
            }
        }
    }

    /// The per-frame text update, run only while enabled. A missing subtree
    /// (the overlay not yet spawned) skips the frame's update silently; it
    /// never fails the frame loop.
    pub fn update_driver(&mut self, metrics: &MetricsSnapshot)
        requires
            old(self).wf(),
        ensures
            final(self).wf(),
            final(self).hotkey == old(self).hotkey,
            final(self).state == old(self).state,
            old(self).tree is None ==> *final(self) == *old(self),
            match old(self).tree {
                Some(pre) => match final(self).tree {
                    Some(post) => tree_updated(pre, post, *metrics),
                    None => false,
                },
                None => true,
            },
    {
        let mut cur: Option<DiagnosticsTree> = None;
        core::mem::swap(&mut self.tree, &mut cur);
        match cur {
            None => {},
            Some(t) => {
                let mut t = t;
                match metrics.fps_tenths {
                    Some(v) => {
                        t.fps.text = fps_text(v);
                    },
                    None => {},
                }
                match metrics.entity_count {
                    Some(v) => {
                        t.entities.text = entities_text(v);
                    },
                    None => {},
                }
                match metrics.memory {
                    MemoryReading::Bytes(b) => {
                        t.memory.text = memory_text(b);
                    },
                    MemoryReading::NoSample => {},
                    MemoryReading::Unsupported => {
                        t.memory.text = String::from_str("Memory: N/A");
                    },
                }
                self.tree = Some(t);
            },
        }
    }
}

/// Toggling twice from `Disabled` is inert: the overlay ends `Disabled` with
/// zero UI entities alive, exactly as if it had never been toggled. Only
/// console log lines, which live outside the overlay, could tell the two
/// histories apart.
pub proof fn lemma_toggle_twice_inert(a: DiagnosticsUi, b: DiagnosticsUi, c: DiagnosticsUi)
    requires
        a.wf(),
        a.state == DiagnosticsState::Disabled,
        toggle_step(a, b),
        toggle_step(b, c),
    ensures
        c == a,
        c.tree is None,
{
    assert(a.tree is None);
}

} // verus!
