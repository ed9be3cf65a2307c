use vstd::prelude::*;

verus! {

/// The kinds of frame on the IPC pipe.
#[allow(non_camel_case_types)]
#[derive(Debug, Clone, Copy, PartialEq, Eq, Structural)]
pub enum OPCODES {
    /// Opens the connection, naming the application.
    Handshake,
    /// Carries a JSON command, response or event.
    Frame,
    /// Closes the connection.
    Close,
    /// Keep-alive request.
    Ping,
    /// Keep-alive answer.
    Pong,
}

impl OPCODES {
    /// The opcode's number in a frame header.
    pub open spec fn value(self) -> u8 {
        match self {
            OPCODES::Handshake => 0,
            OPCODES::Frame => 1,
            OPCODES::Close => 2,
            OPCODES::Ping => 3,
            OPCODES::Pong => 4,
        }
    }

    /// The opcode's number in a frame header.
    pub fn code(&self) -> (c: u8)
        ensures
            c == self.value(),
    {
        match self {
            OPCODES::Handshake => 0,
            OPCODES::Frame => 1,
            OPCODES::Close => 2,
            OPCODES::Ping => 3,
            OPCODES::Pong => 4,
        }
    }
}

/// Different opcodes have different numbers, so a frame's number tells its
/// kind.
pub proof fn lemma_opcode_values_distinct(a: OPCODES, b: OPCODES)
    ensures
        a.value() == b.value() ==> a == b,
{
}

/// The numbers of the opcodes in a frame header: handshake 0, frame 1,
/// close 2, ping 3, pong 4.
pub proof fn lemma_opcode_values()
    ensures
        OPCODES::Handshake.value() == 0,
        OPCODES::Frame.value() == 1,
        OPCODES::Close.value() == 2,
        OPCODES::Ping.value() == 3,
        OPCODES::Pong.value() == 4,
{
}

} // verus!
