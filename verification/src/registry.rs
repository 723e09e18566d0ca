//! The command registry: maps a command name to an argument specification and
//! a handler, rejects duplicate registrations, and dispatches entered commands
//! exactly once, in enqueue order, routing every reply through the event bus.

use vstd::prelude::*;

use crate::events::{CommandEntered, CommandImage, EventBus};
use crate::text::{all_digits, dec_value, parse_u64};

verus! {

/// The type a command argument token must parse into.
#[derive(Clone, Copy, Debug, PartialEq, Eq, Structural)]
pub enum ArgType {
    /// Any token is accepted verbatim.
    Text,
    /// A non-negative decimal integer that fits in a `u64`.
    Count,
}

/// One entry of a command's ordered argument specification.
pub struct ArgSpecEntry {
    pub name: String,
    pub ty: ArgType,
    pub required: bool,
}

/// What a command does once its arguments validate.
#[derive(Clone, Copy, Debug, PartialEq, Eq, Structural)]
pub enum HandlerKind {
    /// Print a message a number of times: required message, optional repeat
    /// count defaulting to 1.
    Log,
}

/// A registered command: its unique name, its argument specification, and its
/// handler. Immutable once registered.
pub struct CommandDef {
    pub name: String,
    pub args: Vec<ArgSpecEntry>,
    pub handler: HandlerKind,
}

/// Why a command's argument tokens were rejected.
#[derive(Clone, Copy, Debug, PartialEq, Eq, Structural)]
pub enum ArgError {
    /// A required argument was not provided.
    MissingArg,
    /// More tokens were provided than the command takes.
    ExtraArgs,
    /// An integer argument was negative; it is rejected, never clamped.
    NegativeCount,
    /// An integer argument does not fit in a `u64`.
    CountOutOfRange,
    /// A token that had to be an integer is not one.
    NotACount,
}

/// Every failure a registry operation can report. Registration fails only on
/// a duplicate name; dispatch fails on an unknown name or malformed arguments.
#[derive(Clone, Copy, Debug, PartialEq, Eq, Structural)]
pub enum ConsoleError {
    DuplicateCommand,
    UnknownCommand,
    ArgParse(ArgError),
}

/// A token that denotes a non-negative integer fitting in a `u64`.
pub open spec fn fits_count_token(t: Seq<char>) -> bool {
    t.len() > 0 && all_digits(t) && dec_value(t) <= u64::MAX
}

/// The reason one token fails to be a count: a negative integer is told apart
/// from a too-large one and from a non-integer.
pub open spec fn count_token_error(t: Seq<char>) -> ArgError {
    if t.len() >= 2 && t[0] == '-' && all_digits(t.subrange(1, t.len() as int)) {
        ArgError::NegativeCount
    } else if t.len() > 0 && all_digits(t) {
        ArgError::CountOutOfRange
    } else {
        ArgError::NotACount
    }
}

/// Token `t` satisfies argument type `ty`.
pub open spec fn token_fits(ty: ArgType, t: Seq<char>) -> bool {
    match ty {
        ArgType::Text => true,
        ArgType::Count => fits_count_token(t),
    }
}

/// The first argument error at or after position `k`, if any: a provided
/// token of the wrong type, or a missing required argument.
pub open spec fn first_arg_error_at(
    specs: Seq<ArgSpecEntry>,
    args: Seq<Seq<char>>,
    k: int,
) -> Option<ArgError>
    decreases specs.len() - k,
{
    if k < 0 || k >= specs.len() {
        None
    } else if k < args.len() {
        if token_fits(specs[k].ty, args[k]) {
            first_arg_error_at(specs, args, k + 1)
        } else {
            Some(count_token_error(args[k]))
        }
    } else if specs[k].required {
        Some(ArgError::MissingArg)
    } else {
        first_arg_error_at(specs, args, k + 1)
    }
}

/// The verdict on a whole argument list: too many tokens, or the first
/// position-wise error. `None` means the arguments validate.
pub open spec fn first_arg_error(specs: Seq<ArgSpecEntry>, args: Seq<Seq<char>>) -> Option<
    ArgError,
> {
    if args.len() > specs.len() {
        Some(ArgError::ExtraArgs)
    } else {
        first_arg_error_at(specs, args, 0)
    }
}

/// The repeat count the log handler uses: the second argument when given,
/// 1 otherwise.
pub open spec fn log_count(args: Seq<Seq<char>>) -> int {
    if args.len() >= 2 {
        dec_value(args[1])
    } else {
        1
    }
}

/// What the log handler prints for validated arguments: its message,
/// verbatim, repeated `log_count` times.
pub open spec fn log_output(args: Seq<Seq<char>>) -> Seq<Seq<char>> {
    Seq::new(log_count(args) as nat, |i: int| args[0])
}

/// What a handler prints for validated arguments.
pub open spec fn handler_output(h: HandlerKind, args: Seq<Seq<char>>) -> Seq<Seq<char>> {
    match h {
        HandlerKind::Log => log_output(args),
    }
}

/// A definition fits its handler: the log handler takes exactly a required
/// text message and an optional count.
pub open spec fn def_wf(def: CommandDef) -> bool {
    match def.handler {
        HandlerKind::Log => def.args@.len() == 2 && def.args@[0].ty == ArgType::Text
            && def.args@[0].required && def.args@[1].ty == ArgType::Count
            && !def.args@[1].required,
    }
}

/// The registry of commands, keyed by name. Names are unique.
pub struct CommandRegistry {
    pub commands: Vec<CommandDef>,
}

impl CommandRegistry {
    /// Well-formed: no two commands share a name, and every definition fits
    /// its handler.
    pub open spec fn wf(&self) -> bool {
        &&& forall|i: int, j: int|
            0 <= i < j < self.commands@.len() ==> self.commands@[i].name@ != self.commands@[j].name@
        &&& forall|i: int| 0 <= i < self.commands@.len() ==> def_wf(#[trigger] self.commands@[i])
    }

    /// The registered command names, in registration order.
    pub open spec fn names_view(&self) -> Seq<Seq<char>> {
        self.commands@.map_values(|d: CommandDef| d.name@)
    }

    /// A command of that name is registered.
    pub open spec fn is_registered(&self, name: Seq<char>) -> bool {
        exists|i: int| 0 <= i < self.commands@.len() && #[trigger] self.commands@[i].name@ == name
    }

    /// The position of the command of that name.
    pub open spec fn index_named(&self, name: Seq<char>) -> int {
        choose|i: int| 0 <= i < self.commands@.len() && #[trigger] self.commands@[i].name@ == name
    }

    /// The registered command of that name.
    pub open spec fn def_named(&self, name: Seq<char>) -> CommandDef {
        self.commands@[self.index_named(name)]
    }

    /// An empty registry.
    pub fn new() -> (reg: CommandRegistry)
        ensures
            reg.wf(),
            reg.commands@.len() == 0,
    {
        CommandRegistry { commands: Vec::new() }
    }

    /// Registers a command; a second command of the same name is rejected
    /// with `DuplicateCommand` and the registry is left unchanged.
    pub fn register(&mut self, def: CommandDef) -> (r: Result<(), ConsoleError>)
        requires
            old(self).wf(),
            def_wf(def),
        ensures
            final(self).wf(),
            match r {
                Ok(()) => !old(self).is_registered(def.name@) && final(self).commands@ == old(
                    self,
                ).commands@.push(def),
                Err(e) => e == ConsoleError::DuplicateCommand && old(self).is_registered(def.name@)
                    && final(self).commands@ == old(self).commands@,
            },
    {
        if self.find(&def.name).is_some() {
            return Err(ConsoleError::DuplicateCommand);
        }
        self.commands.push(def);
        Ok(())
    }

    /// A registry holding the built-in `log` command: a required text message
    /// and an optional non-negative repeat count.
    pub fn with_builtins() -> (reg: CommandRegistry)
        ensures
            reg.wf(),
            reg.commands@.len() == 1,
            reg.is_registered("log"@),
            reg.def_named("log"@) == reg.commands@[0],
            reg.commands@[0].name@ == "log"@,
            reg.commands@[0].handler == HandlerKind::Log,
    {
        let mut args: Vec<ArgSpecEntry> = Vec::new();
        args.push(ArgSpecEntry { name: String::from_str("msg"), ty: ArgType::Text, required: true });
        args.push(
            ArgSpecEntry { name: String::from_str("num"), ty: ArgType::Count, required: false },
        );
        let def = CommandDef { name: String::from_str("log"), args, handler: HandlerKind::Log };
        let mut commands: Vec<CommandDef> = Vec::new();
        commands.push(def);
        let reg = CommandRegistry { commands };
        proof {
            assert(reg.commands@[0].name@ == "log"@);
            assert(reg.index_named("log"@) == 0);
        }
        reg
    }

    /// What one entered command leaves on the print queue: the handler's
    /// output when it validates, one error line otherwise.
    pub open spec fn output_for(&self, c: CommandImage) -> Seq<Seq<char>> {
        if !self.is_registered(c.name) {
            seq![error_text(c.name, ConsoleError::UnknownCommand)]
        } else {
            match first_arg_error(self.def_named(c.name).args@, c.args) {
                Some(e) => seq![error_text(c.name, ConsoleError::ArgParse(e))],
                None => handler_output(self.def_named(c.name).handler, c.args),
            }
        }
    }

    /// What a queue of entered commands leaves on the print queue, dispatched
    /// in enqueue order.
    pub open spec fn outputs_for(&self, cmds: Seq<CommandImage>) -> Seq<Seq<char>>
        decreases cmds.len(),
    {
        if cmds.len() == 0 {
            seq![]
        } else {
            self.outputs_for(cmds.drop_last()) + self.output_for(cmds.last())
        }
    }

    /// The per-frame command phase: drains every queued `CommandEntered`
    /// event and dispatches each exactly once, in enqueue order. A failed
    /// dispatch reports one error line to the console output and leaves all
    /// other state untouched; nothing here ever panics the frame loop.
    pub fn raw_commands_driver(&self, bus: &mut EventBus)
        requires
            self.wf(),
        ensures
            final(bus).queued_commands() == Seq::<CommandImage>::empty(),
            final(bus).queued_lines() == old(bus).queued_lines() + self.outputs_for(
                old(bus).queued_commands(),
            ),
    {
        let events = bus.drain_commands();
        let ghost images = old(bus).queued_commands();
        let ghost base = old(bus).queued_lines();
        let n = events.len();
        let mut j: usize = 0;
        while j < n
            invariant
                self.wf(),
                n == events@.len(),
                j <= n,
                events@.map_values(|e: CommandEntered| e@) == images,
                bus.queued_lines() =~= base + self.outputs_for(images.take(j as int)),
                bus.queued_commands() == Seq::<CommandImage>::empty(),
            decreases n - j,
        {
            let ghost pre_lines = bus.queued_lines();
            let cmd = &events[j];
            proof {
                assert(cmd@ == images[j as int]);
            }
            let r = self.dispatch(cmd, bus);
            match r {
                Ok(()) => {},
                Err(e) => {
                    let line = error_line(&cmd.name, e);
                    bus.push_print_line(line);
                },
            }
            proof {
                assert(bus.queued_lines() =~= pre_lines + self.output_for(images[j as int]));
                assert(images.take(j as int + 1).drop_last() =~= images.take(j as int));
                assert(images.take(j as int + 1).last() == images[j as int]);
                assert(bus.queued_lines() =~= base + self.outputs_for(images.take(j as int + 1)));
            }
            j = j + 1;
        }
        proof {
            assert(images.take(n as int) =~= images);
        }
    }

    /// Looks a name up, returning its position when registered.
    pub fn find(&self, name: &String) -> (r: Option<usize>)
        ensures
            match r {
                Some(i) => i < self.commands@.len() && self.commands@[i as int].name@ == name@,
                None => !self.is_registered(name@),
            },
    {
        let mut k: usize = 0;
        let n = self.commands.len();
        while k < n
            invariant
                n == self.commands@.len(),
                k <= n,
                forall|i: int| 0 <= i < k ==> #[trigger] self.commands@[i].name@ != name@,
            decreases n - k,
        {
            if crate::text::str_eq(self.commands[k].name.as_str(), name.as_str()) {
                return Some(k);
            }
            k = k + 1;
        }
        None
    }

    /// Dispatches one entered command: looks the handler up by name, validates
    /// the argument tokens, and on success runs the handler exactly once,
    /// synchronously. An unknown name yields `UnknownCommand` and malformed
    /// arguments yield `ArgParse`; either way no `PrintLine` event is emitted
    /// and nothing else changes.
    pub fn dispatch(&self, cmd: &CommandEntered, bus: &mut EventBus) -> (r: Result<
        (),
        ConsoleError,
    >)
        requires
            self.wf(),
        ensures
            final(bus).queued_commands() == old(bus).queued_commands(),
            match r {
                Ok(()) => self.is_registered(cmd.name@) && first_arg_error(
                    self.def_named(cmd.name@).args@,
                    cmd.args.deep_view(),
                ) == None::<ArgError> && final(bus).queued_lines() == old(bus).queued_lines()
                    + handler_output(self.def_named(cmd.name@).handler, cmd.args.deep_view()),
                Err(ConsoleError::UnknownCommand) => !self.is_registered(cmd.name@)
                    && final(bus).queued_lines() == old(bus).queued_lines(),
                Err(ConsoleError::ArgParse(e)) => self.is_registered(cmd.name@) && first_arg_error(
                    self.def_named(cmd.name@).args@,
                    cmd.args.deep_view(),
                ) == Some(e) && final(bus).queued_lines() == old(bus).queued_lines(),
                Err(ConsoleError::DuplicateCommand) => false,
            },
    {
        let found = self.find(&cmd.name);
        match found {
            None => Err(ConsoleError::UnknownCommand),
            Some(i) => {
                proof {
                    let j = self.index_named(cmd.name@);
                    assert(0 <= j < self.commands@.len() && self.commands@[j].name@ == cmd.name@);
                    assert(i as int == j);
                }
                let def = &self.commands[i];
                let ghost specs = def.args@;
                let ghost argsv = cmd.args.deep_view();
                match Self::check_args(def, &cmd.args) {
                    Some(e) => Err(ConsoleError::ArgParse(e)),
                    None => {
                        match def.handler {
                            HandlerKind::Log => {
                                proof {
                                    assert(def_wf(self.commands@[i as int]));
                                    if argsv.len() == 0 {
                                        assert(first_arg_error_at(specs, argsv, 0) == Some(
                                            ArgError::MissingArg,
                                        ));
                                    }
                                }
                                let count: u64 = if cmd.args.len() >= 2 {
                                    proof {
                                        assert(argsv[1] == cmd.args@[1]@);
                                        assert(first_arg_error_at(specs, argsv, 1) == None::<
                                            ArgError,
                                        >);
                                        assert(token_fits(specs[1].ty, argsv[1]));
                                    }
                                    match parse_u64(cmd.args[1].as_str()) {
                                        Some(v) => v,
                                        None => vstd::pervasive::unreached(),
                                    }
                                } else {
                                    1
                                };
                                proof {
                                    assert(argsv[0] == cmd.args@[0]@);
                                    assert(count == log_count(argsv));
                                }
                                let msg = &cmd.args[0];
                                let ghost base = bus.queued_lines();
                                let mut t: u64 = 0;
                                while t < count
                                    invariant
                                        t <= count,
                                        msg@ == argsv[0],
                                        bus.queued_lines() =~= base + Seq::new(
                                            t as nat,
                                            |q: int| argsv[0],
                                        ),
                                        bus.queued_commands() == old(bus).queued_commands(),
                                    decreases count - t,
                                {
                                    bus.push_print_line(msg.clone());
                                    proof {
                                        assert(bus.queued_lines() =~= base + Seq::new(
                                            t as nat + 1,
                                            |q: int| argsv[0],
                                        ));
                                    }
                                    t = t + 1;
                                }
                                proof {
                                    assert(bus.queued_lines() =~= base + handler_output(
                                        self.def_named(cmd.name@).handler,
                                        argsv,
                                    ));
                                }
                                Ok(())
                            },
                        }
                    },
                }
            },
        }
    }

    /// Checks an argument list against a command's specification, reporting
    /// the first error, if any.
    pub fn check_args(def: &CommandDef, args: &Vec<String>) -> (r: Option<ArgError>)
        ensures
            r == first_arg_error(def.args@, args.deep_view()),
    {
        let ghost specs = def.args@;
        let ghost argsv = args.deep_view();
        let n_args = args.len();
        let n_specs = def.args.len();
        if n_args > n_specs {
            return Some(ArgError::ExtraArgs);
        }
        let mut k: usize = 0;
        while k < n_specs
            invariant
                n_specs == specs.len(),
                n_args == argsv.len(),
                n_args <= n_specs,
                k <= n_specs,
                specs == def.args@,
                argsv == args.deep_view(),
                first_arg_error_at(specs, argsv, 0) == first_arg_error_at(specs, argsv, k as int),
            decreases n_specs - k,
        {
            if k < n_args {
                let fits = match def.args[k].ty {
                    ArgType::Text => true,
                    ArgType::Count => {
                        proof {
                            assert(argsv[k as int] == args@[k as int]@);
                        }
                        parse_u64(args[k].as_str()).is_some()
                    },
                };
                if !fits {
                    return Some(count_error_of(&args[k]));
                }
            } else {
                if def.args[k].required {
                    return Some(ArgError::MissingArg);
                }
            }
            k = k + 1;
        }
        None
    }
}

/// The console line reporting one argument error.
pub open spec fn reason_image(e: ArgError) -> Seq<char> {
    match e {
        ArgError::MissingArg => "missing a required argument"@,
        ArgError::ExtraArgs => "too many arguments"@,
        ArgError::NegativeCount => "a count must not be negative"@,
        ArgError::CountOutOfRange => "a count is too large"@,
        ArgError::NotACount => "expected a non-negative integer"@,
    }
}

/// The console line reporting one failed dispatch or registration.
pub open spec fn error_text(name: Seq<char>, e: ConsoleError) -> Seq<char> {
    match e {
        ConsoleError::DuplicateCommand => "Duplicate command: "@ + name,
        ConsoleError::UnknownCommand => "Unknown command: "@ + name,
        ConsoleError::ArgParse(a) => "Invalid arguments: "@ + reason_image(a),
    }
}

/// Renders the console line for one failed dispatch or registration.
pub fn error_line(name: &String, e: ConsoleError) -> (s: String)
    ensures
        s@ == error_text(name@, e),
{
    match e {
        ConsoleError::DuplicateCommand => String::from_str("Duplicate command: ").concat(
            name.as_str(),
        ),
        ConsoleError::UnknownCommand => String::from_str("Unknown command: ").concat(name.as_str()),
        ConsoleError::ArgParse(a) => {
            let reason: &'static str = match a {
                ArgError::MissingArg => "missing a required argument",
                ArgError::ExtraArgs => "too many arguments",
                ArgError::NegativeCount => "a count must not be negative",
                ArgError::CountOutOfRange => "a count is too large",
                ArgError::NotACount => "expected a non-negative integer",
            };
            String::from_str("Invalid arguments: ").concat(reason)
        },
    }
}

/// Every character of `s` is a decimal digit.
fn all_digits_exec(s: &str) -> (r: bool)
    ensures
        r == all_digits(s@),
{
    let n = s.unicode_len();
    let mut i: usize = 0;
    while i < n
        invariant
            n == s@.len(),
            i <= n,
            forall|k: int| 0 <= k < i ==> crate::text::is_digit(#[trigger] s@[k]),
        decreases n - i,
    {
        let c = s.get_char(i);
        if !('0' <= c && c <= '9') {
            return false;
        }
        i = i + 1;
    }
    true
}

/// Classifies a token that failed to be a count.
fn count_error_of(t: &String) -> (e: ArgError)
    ensures
        e == count_token_error(t@),
{
    let s = t.as_str();
    let n = s.unicode_len();
    if n >= 2 && s.get_char(0) == '-' {
        let rest = s.substring_char(1, n);
        if all_digits_exec(rest) {
            return ArgError::NegativeCount;
        }
    }
    if n > 0 && all_digits_exec(s) {
        ArgError::CountOutOfRange
    } else {
        ArgError::NotACount
    }
}

} // verus!
