//! The console event bus: a single-threaded, frame-drained FIFO queue per
//! event kind. Producers enqueue during a frame; consumers scheduled later in
//! the same frame (or in the next one) drain the queue, so every event is
//! delivered exactly once and in enqueue order.

use vstd::prelude::*;

verus! {

/// One command line entered at the console prompt, already tokenized into the
/// command name and its positional argument tokens.
pub struct CommandEntered {
    pub name: String,
    pub args: Vec<String>,
}

/// The mathematical image of a `CommandEntered` event.
pub struct CommandImage {
    pub name: Seq<char>,
    pub args: Seq<Seq<char>>,
}

impl View for CommandEntered {
    type V = CommandImage;

    open spec fn view(&self) -> CommandImage {
        CommandImage { name: self.name@, args: self.args.deep_view() }
    }
}

/// The two frame-scoped FIFO queues that decouple command producers and
/// text producers from the widget that owns the screen.
pub struct EventBus {
    pub commands: Vec<CommandEntered>,
    pub print_lines: Vec<String>,
}

impl EventBus {
    /// The queued `CommandEntered` events, oldest first.
    pub open spec fn queued_commands(&self) -> Seq<CommandImage> {
        self.commands@.map_values(|e: CommandEntered| e@)
    }

    /// The queued `PrintLine` texts, oldest first.
    pub open spec fn queued_lines(&self) -> Seq<Seq<char>> {
        self.print_lines.deep_view()
    }

    /// An empty bus: nothing queued of either kind.
    pub fn new() -> (bus: EventBus)
        ensures
            bus.queued_commands() == Seq::<CommandImage>::empty(),
            bus.queued_lines() == Seq::<Seq<char>>::empty(),
    {
        let bus = EventBus { commands: Vec::new(), print_lines: Vec::new() };
        proof {
            assert(bus.queued_commands() =~= Seq::<CommandImage>::empty());
            assert(bus.queued_lines() =~= Seq::<Seq<char>>::empty());
        }
        bus
    }

    /// Enqueues one `PrintLine` event carrying `text`, behind every line
    /// already queued; the command queue is untouched.
    pub fn push_print_line(&mut self, text: String)
        ensures
            final(self).queued_lines() == old(self).queued_lines().push(text@),
            final(self).queued_commands() == old(self).queued_commands(),
    {
        let ghost prior = self.print_lines.deep_view();
        self.print_lines.push(text);
        proof {
            assert(self.queued_lines() =~= prior.push(text@));
            assert(self.queued_commands() =~= old(self).queued_commands());
        }
    }

    /// Enqueues one `CommandEntered` event behind every command already
    /// queued; the print queue is untouched.
    pub fn push_command(&mut self, event: CommandEntered)
        ensures
            final(self).queued_commands() == old(self).queued_commands().push(event@),
            final(self).queued_lines() == old(self).queued_lines(),
    {
        let ghost prior = self.queued_commands();
        let ghost image = event@;
        self.commands.push(event);
        proof {
            assert(self.queued_commands() =~= prior.push(image));
            assert(self.queued_lines() =~= old(self).queued_lines());
        }
    }

    /// Hands out every queued `PrintLine` text in enqueue order and empties
    /// that queue, so no line is ever delivered twice.
    pub fn drain_print_lines(&mut self) -> (lines: Vec<String>)
        ensures
            lines.deep_view() == old(self).queued_lines(),
            final(self).queued_lines() == Seq::<Seq<char>>::empty(),
            final(self).queued_commands() == old(self).queued_commands(),
    {
        let mut lines: Vec<String> = Vec::new();
        core::mem::swap(&mut self.print_lines, &mut lines);
        proof {
            assert(self.queued_lines() =~= Seq::<Seq<char>>::empty());
            assert(self.queued_commands() =~= old(self).queued_commands());
        }
        lines
    }

    /// Hands out every queued `CommandEntered` event in enqueue order and
    /// empties that queue, so no command is ever dispatched twice.
    pub fn drain_commands(&mut self) -> (events: Vec<CommandEntered>)
        ensures
            events@.map_values(|e: CommandEntered| e@) == old(self).queued_commands(),
            final(self).queued_commands() == Seq::<CommandImage>::empty(),
            final(self).queued_lines() == old(self).queued_lines(),
    {
        let mut events: Vec<CommandEntered> = Vec::new();
        core::mem::swap(&mut self.commands, &mut events);
        proof {
            assert(self.queued_commands() =~= Seq::<CommandImage>::empty());
            assert(self.queued_lines() =~= old(self).queued_lines());
        }
        events
    }
}

} // verus!
