//! The console widget: on-screen position/size/style state, the bounded
//! scrollback and input-history buffers, raw text entry and submission, and
//! the per-frame phases that keep them current (resize before paint before
//! draining queued print lines).

use vstd::prelude::*;

use crate::events::{CommandEntered, CommandImage, EventBus};
use crate::registry::CommandRegistry;
use crate::text::{tokenize, tokens_of};

verus! {

/// The fixed margin kept between the console and the window edge, in pixels.
pub const CONSOLE_MARGIN: u32 = 50;

/// How many scrollback lines and input-history entries are kept.
pub const HISTORY_DEPTH: usize = 20;

/// How many autocomplete suggestions are shown at most.
pub const SUGGESTION_LIMIT: usize = 4;

/// A color in 8-bit RGBA.
pub struct Rgba {
    pub red: u8,
    pub green: u8,
    pub blue: u8,
    pub alpha: u8,
}

/// The key that toggles a piece of development UI.
#[derive(Clone, Copy, Debug, PartialEq, Eq, Structural)]
pub enum ToggleKey {
    Backquote,
    FunctionTwo,
}

/// Process-wide console state: position, size, history depth, suggestion
/// count, color scheme, input-capture flags and the toggle keybinding. Size is
/// recomputed every frame from the window dimensions; every other field is set
/// once at startup.
pub struct ConsoleConfig {
    pub toggle_key: ToggleKey,
    pub left_pos: u32,
    pub top_pos: u32,
    pub width: u32,
    pub height: u32,
    pub history_size: usize,
    pub symbol: String,
    pub title_name: String,
    pub collapsible: bool,
    pub resizable: bool,
    pub moveable: bool,
    pub show_title_bar: bool,
    pub background_color: Rgba,
    pub foreground_color: Rgba,
    pub num_suggestions: usize,
    pub block_mouse: bool,
    pub block_keyboard: bool,
}

/// The console width for a window `w` pixels wide: a fixed margin on each side.
pub open spec fn resized_width(w: int) -> int {
    w - 2 * CONSOLE_MARGIN
}

/// The console height for a window `h` pixels tall: twice the window height,
/// less a fixed margin on each side.
pub open spec fn resized_height(h: int) -> int {
    2 * h - 2 * CONSOLE_MARGIN
}

/// A bounded FIFO push: the line goes to the back, and once `depth` entries
/// exist the oldest entry is evicted, the relative order of the rest kept.
pub open spec fn ring_push(prior: Seq<Seq<char>>, line: Seq<char>, depth: int) -> Seq<Seq<char>> {
    if prior.len() < depth {
        prior.push(line)
    } else {
        prior.drop_first().push(line)
    }
}

/// The scrollback bound law: a ring within its depth stays within its depth
/// under a push. Below the depth the line is only appended; at the depth
/// exactly the oldest entry is evicted and every kept entry moves up one
/// place, its relative order preserved, with the new line at the back.
pub proof fn lemma_ring_push_depth(prior: Seq<Seq<char>>, line: Seq<char>, depth: int)
    requires
        1 <= depth,
        prior.len() <= depth,
    ensures
        ring_push(prior, line, depth).len() <= depth,
        ring_push(prior, line, depth).last() == line,
        prior.len() < depth ==> ring_push(prior, line, depth) == prior.push(line),
        prior.len() == depth ==> ring_push(prior, line, depth).len() == depth && forall|k: int|
            0 <= k < depth - 1 ==> ring_push(prior, line, depth)[k] == prior[k + 1],
{
}

/// `ring_push` folded over a whole queue of lines, oldest first.
pub open spec fn ring_push_all(prior: Seq<Seq<char>>, lines: Seq<Seq<char>>, depth: int) -> Seq<
    Seq<char>,
>
    decreases lines.len(),
{
    if lines.len() == 0 {
        prior
    } else {
        ring_push(ring_push_all(prior, lines.drop_last(), depth), lines.last(), depth)
    }
}

/// The scrollback line echoing a submitted input: the prompt symbol, then the
/// raw input verbatim.
pub open spec fn prompt_echo(symbol: Seq<char>, raw: Seq<char>) -> Seq<char> {
    symbol + raw
}

/// The first `room` of the `names` that begin with `prefix`, in order.
pub open spec fn suggest_from(names: Seq<Seq<char>>, prefix: Seq<char>, room: int) -> Seq<Seq<char>>
    decreases names.len(),
{
    if names.len() == 0 || room <= 0 {
        seq![]
    } else if prefix.is_prefix_of(names.first()) {
        seq![names.first()] + suggest_from(names.drop_first(), prefix, room - 1)
    } else {
        suggest_from(names.drop_first(), prefix, room)
    }
}

pub proof fn lemma_suggest_len(names: Seq<Seq<char>>, prefix: Seq<char>, room: int)
    ensures
        room >= 0 ==> suggest_from(names, prefix, room).len() <= room,
        room <= 0 ==> suggest_from(names, prefix, room).len() == 0,
    decreases names.len(),
{
    if names.len() > 0 && room > 0 {
        lemma_suggest_len(names.drop_first(), prefix, room - 1);
        lemma_suggest_len(names.drop_first(), prefix, room);
    }
}

/// The console widget. Hidden or visible, it owns the scrollback, the input
/// buffer and the input-history ring.
pub struct Console {
    pub config: ConsoleConfig,
    pub visible: bool,
    pub input: String,
    pub scrollback: Vec<String>,
    pub history: Vec<String>,
    pub history_cursor: usize,
}

impl Console {
    /// The scrollback, oldest line first.
    pub open spec fn scroll_view(&self) -> Seq<Seq<char>> {
        self.scrollback.deep_view()
    }

    /// The input-history ring, oldest entry first.
    pub open spec fn history_view(&self) -> Seq<Seq<char>> {
        self.history.deep_view()
    }

    /// Well-formed: both rings are within the configured depth and the
    /// history cursor points into the ring or one past its end.
    pub open spec fn wf(&self) -> bool {
        &&& self.config.history_size >= 1
        &&& self.scrollback@.len() <= self.config.history_size
        &&& self.history@.len() <= self.config.history_size
        &&& self.history_cursor <= self.history@.len()
    }

    /// Everything but the scrollback is the same in `a` and `b`.
    pub open spec fn same_but_scrollback(a: Console, b: Console) -> bool {
        a.config == b.config && a.visible == b.visible && a.input == b.input && a.history
            == b.history && a.history_cursor == b.history_cursor
    }

    /// A fresh, hidden console with the startup configuration: margins of 50,
    /// history depth 20, 4 suggestions, prompt symbol `"> "`, keyboard
    /// captured but not the mouse, toggled by the backtick key.
    pub fn new() -> (c: Console)
        ensures
            c.wf(),
            !c.visible,
            c.input@ == Seq::<char>::empty(),
            c.scroll_view() == Seq::<Seq<char>>::empty(),
            c.history_view() == Seq::<Seq<char>>::empty(),
            c.config.toggle_key == ToggleKey::Backquote,
            c.config.left_pos == CONSOLE_MARGIN,
            c.config.top_pos == CONSOLE_MARGIN,
            c.config.history_size == HISTORY_DEPTH,
            c.config.num_suggestions == SUGGESTION_LIMIT,
            c.config.symbol@ == "> "@,
            c.config.title_name@ == "MAGIC WORDS"@,
            !c.config.collapsible,
            !c.config.resizable,
            !c.config.moveable,
            c.config.show_title_bar,
            !c.config.block_mouse,
            c.config.block_keyboard,
    {
        let config = ConsoleConfig {
            toggle_key: ToggleKey::Backquote,
            left_pos: CONSOLE_MARGIN,
            top_pos: CONSOLE_MARGIN,
            width: 0,
            height: 0,
            history_size: HISTORY_DEPTH,
            symbol: String::from_str("> "),
            title_name: String::from_str("MAGIC WORDS"),
            collapsible: false,
            resizable: false,
            moveable: false,
            show_title_bar: true,
            background_color: Rgba { red: 0, green: 0, blue: 0, alpha: 230 },
            foreground_color: Rgba { red: 220, green: 220, blue: 220, alpha: 255 },
            num_suggestions: SUGGESTION_LIMIT,
            block_mouse: false,
            block_keyboard: true,
        };
        let c = Console {
            config,
            visible: false,
            input: String::new(),
            scrollback: Vec::new(),
            history: Vec::new(),
            history_cursor: 0,
        };
        proof {
            assert(c.scroll_view() =~= Seq::<Seq<char>>::empty());
            assert(c.history_view() =~= Seq::<Seq<char>>::empty());
        }
        c
    }

    /// The per-frame resize phase, run before UI paint: recomputes the
    /// console size from the current window dimensions alone, so the result
    /// never depends on any prior frame's size.
    pub fn resize_driver(&mut self, window_width: u32, window_height: u32)
        requires
            window_width >= 2 * CONSOLE_MARGIN,
            window_height >= CONSOLE_MARGIN,
            window_height <= 0x7fff_ffff,
        ensures
            final(self).config.width == resized_width(window_width as int),
            final(self).config.height == resized_height(window_height as int),
            final(self).config.toggle_key == old(self).config.toggle_key,
            final(self).config.left_pos == old(self).config.left_pos,
            final(self).config.top_pos == old(self).config.top_pos,
            final(self).config.history_size == old(self).config.history_size,
            final(self).config.symbol == old(self).config.symbol,
            final(self).config.title_name == old(self).config.title_name,
            final(self).config.collapsible == old(self).config.collapsible,
            final(self).config.resizable == old(self).config.resizable,
            final(self).config.moveable == old(self).config.moveable,
            final(self).config.show_title_bar == old(self).config.show_title_bar,
            final(self).config.background_color == old(self).config.background_color,
            final(self).config.foreground_color == old(self).config.foreground_color,
            final(self).config.num_suggestions == old(self).config.num_suggestions,
            final(self).config.block_mouse == old(self).config.block_mouse,
            final(self).config.block_keyboard == old(self).config.block_keyboard,
            final(self).visible == old(self).visible,
            final(self).input == old(self).input,
            final(self).scrollback == old(self).scrollback,
            final(self).history == old(self).history,
            final(self).history_cursor == old(self).history_cursor,
            old(self).wf() ==> final(self).wf(),
    {
        self.config.width = window_width - 2 * CONSOLE_MARGIN;
        self.config.height = 2 * window_height - 2 * CONSOLE_MARGIN;
    }

    /// Appends one line to the scrollback, evicting the oldest line once the
    /// configured depth is reached, so the scrollback never exceeds it.
    pub fn push_scrollback(&mut self, line: String)
        requires
            old(self).wf(),
        ensures
            final(self).wf(),
            final(self).scroll_view() == ring_push(
                old(self).scroll_view(),
                line@,
                old(self).config.history_size as int,
            ),
            final(self).scroll_view().len() <= old(self).config.history_size,
            Console::same_but_scrollback(*final(self), *old(self)),
    {
        let ghost prior = self.scroll_view();
        if self.scrollback.len() == self.config.history_size {
            self.scrollback.remove(0);
            proof {
                assert(self.scroll_view() =~= prior.drop_first());
            }
        }
        let ghost mid = self.scroll_view();
        self.scrollback.push(line);
        proof {
            assert(self.scroll_view() =~= mid.push(line@));
        }
    }

    /// A producer-facing `log`: enqueues one `PrintLine` event carrying the
    /// line; the widget renders it when the print queue is drained, within
    /// the same or the next frame.
    pub fn log(&self, bus: &mut EventBus, line: String)
        ensures
            final(bus).queued_lines() == old(bus).queued_lines().push(line@),
            final(bus).queued_commands() == old(bus).queued_commands(),
    {
        bus.push_print_line(line);
    }

    /// The startup phase: greets through the event bus, exercising the same
    /// path every later producer uses.
    pub fn startup_driver(&self, bus: &mut EventBus)
        ensures
            final(bus).queued_lines() == old(bus).queued_lines().push("My Bevy Is Ready"@),
            final(bus).queued_commands() == old(bus).queued_commands(),
    {
        self.log(bus, String::from_str("My Bevy Is Ready"));
    }

    /// The per-frame print phase, run after UI paint: drains every queued
    /// `PrintLine` event into the scrollback, in enqueue order, evicting the
    /// oldest lines as the depth bound demands.
    pub fn write_to_console_driver(&mut self, bus: &mut EventBus)
        requires
            old(self).wf(),
        ensures
            final(self).wf(),
            final(self).scroll_view() == ring_push_all(
                old(self).scroll_view(),
                old(bus).queued_lines(),
                old(self).config.history_size as int,
            ),
            final(bus).queued_lines() == Seq::<Seq<char>>::empty(),
            final(bus).queued_commands() == old(bus).queued_commands(),
            Console::same_but_scrollback(*final(self), *old(self)),
    {
        let lines = bus.drain_print_lines();
        let ghost linesv = old(bus).queued_lines();
        let ghost base = old(self).scroll_view();
        let ghost depth = old(self).config.history_size as int;
        let n = lines.len();
        let mut j: usize = 0;
        while j < n
            invariant
                self.wf(),
                n == lines@.len(),
                j <= n,
                lines.deep_view() == linesv,
                depth == self.config.history_size as int,
                self.scroll_view() =~= ring_push_all(base, linesv.take(j as int), depth),
                Console::same_but_scrollback(*self, *old(self)),
            decreases n - j,
        {
            proof {
                assert(lines@[j as int]@ == linesv[j as int]);
            }
            self.push_scrollback(lines[j].clone());
            proof {
                assert(linesv.take(j as int + 1).drop_last() =~= linesv.take(j as int));
                assert(linesv.take(j as int + 1).last() == linesv[j as int]);
            }
            j = j + 1;
        }
        proof {
            assert(linesv.take(n as int) =~= linesv);
        }
    }

    /// Shows or hides the console on an edge-press of the toggle key; a held
    /// key changes nothing.
    pub fn toggle_visible(&mut self, toggle_just_pressed: bool)
        ensures
            final(self).visible == (if toggle_just_pressed {
                !old(self).visible
            } else {
                old(self).visible
            }),
            final(self).config == old(self).config,
            final(self).input == old(self).input,
            final(self).scrollback == old(self).scrollback,
            final(self).history == old(self).history,
            final(self).history_cursor == old(self).history_cursor,
            old(self).wf() ==> final(self).wf(),
    {
        if toggle_just_pressed {
            self.visible = !self.visible;
        }
    }

    /// Submits the input buffer, as the Enter key does. A non-blank buffer is
    /// tokenized on whitespace; the raw input is echoed to the scrollback
    /// behind the prompt symbol, one `CommandEntered` event is emitted with
    /// the first token as the command name and the rest as its arguments, the
    /// buffer is cleared, and the raw input joins the bounded history ring.
    /// A blank buffer is only cleared; nothing is echoed or emitted.
    pub fn submit(&mut self, bus: &mut EventBus)
        requires
            old(self).wf(),
        ensures
            final(self).wf(),
            final(self).input@ == Seq::<char>::empty(),
            final(self).config == old(self).config,
            final(self).visible == old(self).visible,
            final(bus).queued_lines() == old(bus).queued_lines(),
            ({
                let raw = old(self).input@;
                let toks = tokens_of(raw);
                if toks.len() == 0 {
                    &&& final(self).scrollback == old(self).scrollback
                    &&& final(self).history == old(self).history
                    &&& final(self).history_cursor == old(self).history_cursor
                    &&& final(bus).queued_commands() == old(bus).queued_commands()
                } else {
                    &&& final(self).scroll_view() == ring_push(
                        old(self).scroll_view(),
                        prompt_echo(old(self).config.symbol@, raw),
                        old(self).config.history_size as int,
                    )
                    &&& final(bus).queued_commands() == old(bus).queued_commands().push(
                        CommandImage { name: toks[0], args: toks.drop_first() },
                    )
                    &&& final(self).history_view() == ring_push(
                        old(self).history_view(),
                        raw,
                        old(self).config.history_size as int,
                    )
                    &&& final(self).history_cursor == final(self).history_view().len()
                }
            }),
    {
        let raw = self.input.clone();
        let toks = tokenize(raw.as_str());
        let ghost toksv = tokens_of(raw@);
        self.input = String::new();
        if toks.len() == 0 {
            return ;
        }
        let echo = self.config.symbol.clone().concat(raw.as_str());
        self.push_scrollback(echo);
        let name = toks[0].clone();
        let mut args: Vec<String> = Vec::new();
        let n_toks = toks.len();
        let mut k: usize = 1;
        while k < n_toks
            invariant
                n_toks == toks@.len(),
                1 <= k <= n_toks,
                toks.deep_view() == toksv,
                args.deep_view() =~= toksv.subrange(1, k as int),
            decreases n_toks - k,
        {
            let ghost prior = args.deep_view();
            args.push(toks[k].clone());
            proof {
                assert(toks@[k as int]@ == toksv[k as int]);
                assert(args.deep_view() =~= prior.push(toksv[k as int]));
                assert(args.deep_view() =~= toksv.subrange(1, k as int + 1));
            }
            k = k + 1;
        }
        proof {
            assert(args.deep_view() =~= toksv.drop_first());
            assert(name@ == toksv[0]);
        }
        bus.push_command(CommandEntered { name, args });
        let ghost hist_prior = self.history_view();
        if self.history.len() == self.config.history_size {
            self.history.remove(0);
            proof {
                assert(self.history_view() =~= hist_prior.drop_first());
            }
        }
        let ghost hist_mid = self.history_view();
        self.history.push(raw);
        proof {
            assert(self.history_view() =~= hist_mid.push(old(self).input@));
        }
        self.history_cursor = self.history.len();
    }

    /// Steps one entry back through the input-history ring, loading it into
    /// the input buffer; at the oldest entry nothing changes.
    pub fn history_up(&mut self)
        requires
            old(self).wf(),
        ensures
            final(self).wf(),
            old(self).history_cursor > 0 ==> final(self).history_cursor == old(self).history_cursor
                - 1 && final(self).input@ == old(self).history_view()[old(self).history_cursor - 1],
            old(self).history_cursor == 0 ==> *final(self) == *old(self),
            final(self).config == old(self).config,
            final(self).visible == old(self).visible,
            final(self).scrollback == old(self).scrollback,
            final(self).history == old(self).history,
    {
        if self.history_cursor > 0 {
            self.history_cursor = self.history_cursor - 1;
            self.input = self.history[self.history_cursor].clone();
        }
    }

    /// Steps one entry forward through the input-history ring; past the
    /// newest entry the input buffer is cleared instead.
    pub fn history_down(&mut self)
        requires
            old(self).wf(),
        ensures
            final(self).wf(),
            old(self).history_cursor < old(self).history@.len() ==> final(self).history_cursor
                == old(self).history_cursor + 1 && (if final(self).history_cursor < old(
                self,
            ).history@.len() {
                final(self).input@ == old(self).history_view()[old(self).history_cursor + 1]
            } else {
                final(self).input@ == Seq::<char>::empty()
            }),
            old(self).history_cursor == old(self).history@.len() ==> *final(self) == *old(self),
            final(self).config == old(self).config,
            final(self).visible == old(self).visible,
            final(self).scrollback == old(self).scrollback,
            final(self).history == old(self).history,
    {
        if self.history_cursor < self.history.len() {
            self.history_cursor = self.history_cursor + 1;
            if self.history_cursor < self.history.len() {
                self.input = self.history[self.history_cursor].clone();
            } else {
                self.input = String::new();
            }
        }
    }

    /// Lists up to the configured number of registered command names that
    /// begin with the partial name in the input buffer, in registration
    /// order. The buffer itself is never auto-filled.
    pub fn suggestions(&self, registry: &CommandRegistry) -> (r: Vec<String>)
        ensures
            r.deep_view() == suggest_from(
                registry.names_view(),
                self.input@,
                self.config.num_suggestions as int,
            ),
            r@.len() <= self.config.num_suggestions,
    {
        let ghost namesv = registry.names_view();
        let ghost prefix = self.input@;
        let limit = self.config.num_suggestions;
        let n = registry.commands.len();
        let mut out: Vec<String> = Vec::new();
        let mut j: usize = 0;
        proof {
            assert(namesv.skip(0) =~= namesv);
            assert(out.deep_view() =~= Seq::<Seq<char>>::empty());
            assert(Seq::<Seq<char>>::empty() + suggest_from(namesv, prefix, limit as int)
                =~= suggest_from(namesv, prefix, limit as int));
        }
        while j < n && out.len() < limit
            invariant
                n == registry.commands@.len(),
                namesv == registry.names_view(),
                prefix == self.input@,
                j <= n,
                out@.len() <= limit,
                suggest_from(namesv, prefix, limit as int) =~= out.deep_view() + suggest_from(
                    namesv.skip(j as int),
                    prefix,
                    limit - out@.len(),
                ),
            decreases n - j,
        {
            proof {
                assert(namesv.skip(j as int).first() == registry.commands@[j as int].name@);
                assert(namesv.skip(j as int).drop_first() =~= namesv.skip(j as int + 1));
            }
            let ghost prior = out.deep_view();
            if crate::text::str_has_prefix(registry.commands[j].name.as_str(), self.input.as_str())
                {
                out.push(registry.commands[j].name.clone());
                proof {
                    assert(out.deep_view() =~= prior.push(registry.commands@[j as int].name@));
                    assert(suggest_from(namesv, prefix, limit as int) =~= out.deep_view()
                        + suggest_from(namesv.skip(j as int + 1), prefix, limit - out@.len()));
                }
            } else {
                proof {
                    assert(suggest_from(namesv, prefix, limit as int) =~= out.deep_view()
                        + suggest_from(namesv.skip(j as int + 1), prefix, limit - out@.len()));
                }
            }
            j = j + 1;
        }
        proof {
            if j == n {
                assert(namesv.skip(n as int) =~= Seq::<Seq<char>>::empty());
                assert(suggest_from(namesv, prefix, limit as int) =~= out.deep_view());
            } else {
                lemma_suggest_len(namesv.skip(j as int), prefix, 0);
                assert(suggest_from(namesv, prefix, limit as int) =~= out.deep_view());
            }
        }
        out
    }

    /// Appends raw keyboard text to the input buffer.
    pub fn type_text(&mut self, t: &str)
        ensures
            final(self).input@ == old(self).input@ + t@,
            final(self).config == old(self).config,
            final(self).visible == old(self).visible,
            final(self).scrollback == old(self).scrollback,
            final(self).history == old(self).history,
            final(self).history_cursor == old(self).history_cursor,
            old(self).wf() ==> final(self).wf(),
    {
        self.input.append(t);
    }
}

} // verus!
