use vstd::prelude::*;

use crate::errors::TunnelError;

verus! {

/// One event on the command channel while a remote command runs.
pub enum CommandEvent {
    /// The channel delivered a chunk of output.
    Data(Vec<u8>),
    /// The command returned an exit status.
    ExitStatus(u32),
    /// Any other channel event: ignored.
    Other,
}

/// The state of one remote command execution: the output collected so far,
/// in the order the channel delivered it, and the exit status once seen.
///
/// The runner opens a session channel, requests execution, then feeds every
/// channel event here until the channel closes, and calls `finish`.
pub struct CommandRun {
    pub output: Vec<u8>,
    pub exit: Option<u32>,
}

impl CommandRun {
    /// A run that has seen no event yet.
    pub fn new() -> (c: CommandRun)
        ensures
            c.output@ == Seq::<u8>::empty(),
            c.exit is None,
    {
        CommandRun { output: Vec::new(), exit: None }
    }

    /// Absorb one channel event. Output chunks are appended in arrival
    /// order; an exit status replaces any earlier one; anything else is
    /// ignored.
    pub fn on_event(&mut self, event: &CommandEvent)
        ensures
            final(self).output@ == old(self).output@ + CommandRun::data_of(event),
            final(self).exit == (match event {
                CommandEvent::ExitStatus(code) => Some(*code),
                _ => old(self).exit,
            }),
    {
        match event {
            CommandEvent::Data(data) => {
                let mut i: usize = 0;
                let n = data.len();
                while i < n
                    invariant
                        i <= n,
                        n == data.len(),
                        self.output@ == old(self).output@ + data@.take(i as int),
                        self.exit == old(self).exit,
                    decreases n - i,
                {
                    let b = data[i];
                    self.output.push(b);
                    i = i + 1;
                    proof {
                        assert(data@.take(i as int) == data@.take(i - 1).push(data@[i - 1]));
                    }
                }
                proof {
                    assert(data@.take(n as int) == data@);
                }
            },
            CommandEvent::ExitStatus(code) => {
                self.exit = Some(*code);
            },
            CommandEvent::Other => {},
        }
    }

    /// The bytes `event` contributes to the command's output.
    pub open spec fn data_of(event: &CommandEvent) -> Seq<u8> {
        match event {
            CommandEvent::Data(data) => data@,
            _ => Seq::<u8>::empty(),
        }
    }

    /// The channel has closed: the collected output and the exit status, or
    /// `Command` if the channel closed without ever delivering one.
    pub fn finish(self) -> (r: Result<(Vec<u8>, u32), TunnelError>)
        ensures
            (match self.exit {
                Some(code) => (r matches Ok(out) && out.0@ == self.output@ && out.1 == code),
                None => r == Err::<(Vec<u8>, u32), TunnelError>(TunnelError::Command),
            }),
    {
        match self.exit {
            Some(code) => Ok((self.output, code)),
            None => Err(TunnelError::Command),
        }
    }
}

} // verus!
