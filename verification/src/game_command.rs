//! The commands the engine sends to the module, numbered in the engine's order.
use vstd::prelude::*;

verus! {

#[derive(Clone, Copy, PartialEq, Eq, Debug, Structural)]
pub enum GameCommand {
    /// Level time, random seed.
    Init,
    /// Parse the map's entity string and spawn its entities.
    LoadEntities,
    Shutdown,
    /// Whether the client is a spectator.
    ClientConnect,
    PutClientInServer,
    ClientUserInfoChanged,
    ClientDisconnect,
    ClientCommand,
    ClientPreThink,
    ClientThink,
    ClientPostThink,
    /// Level time, whether this is a bot frame.
    StartFrame,
    SetChangeParams,
    SetNewParams,
    ConsoleCommand,
    EdictTouch,
    EdictThink,
    EdictBlocked,
    ClientSay,
    PausedTic,
    ClearEdict,
}

impl GameCommand {
    /// The engine's number for this command.
    pub open spec fn code(self) -> i32 {
        match self {
            GameCommand::Init => 0,
            GameCommand::LoadEntities => 1,
            GameCommand::Shutdown => 2,
            GameCommand::ClientConnect => 3,
            GameCommand::PutClientInServer => 4,
            GameCommand::ClientUserInfoChanged => 5,
            GameCommand::ClientDisconnect => 6,
            GameCommand::ClientCommand => 7,
            GameCommand::ClientPreThink => 8,
            GameCommand::ClientThink => 9,
            GameCommand::ClientPostThink => 10,
            GameCommand::StartFrame => 11,
            GameCommand::SetChangeParams => 12,
            GameCommand::SetNewParams => 13,
            GameCommand::ConsoleCommand => 14,
            GameCommand::EdictTouch => 15,
            GameCommand::EdictThink => 16,
            GameCommand::EdictBlocked => 17,
            GameCommand::ClientSay => 18,
            GameCommand::PausedTic => 19,
            GameCommand::ClearEdict => 20,
        }
    }

    /// The command with number `v`; an unknown number yields `None`, so that it can be ignored.
    pub fn from_i32(v: i32) -> (r: Option<GameCommand>)
        ensures
            forall|c: GameCommand| r == Some(c) <==> #[trigger] c.code() == v,
            r is None <==> !(0 <= v <= 20),
    {
        Some(
            match v {
                0 => GameCommand::Init,
                1 => GameCommand::LoadEntities,
                2 => GameCommand::Shutdown,
                3 => GameCommand::ClientConnect,
                4 => GameCommand::PutClientInServer,
                5 => GameCommand::ClientUserInfoChanged,
                6 => GameCommand::ClientDisconnect,
                7 => GameCommand::ClientCommand,
                8 => GameCommand::ClientPreThink,
                9 => GameCommand::ClientThink,
                10 => GameCommand::ClientPostThink,
                11 => GameCommand::StartFrame,
                12 => GameCommand::SetChangeParams,
                13 => GameCommand::SetNewParams,
                14 => GameCommand::ConsoleCommand,
                15 => GameCommand::EdictTouch,
                16 => GameCommand::EdictThink,
                17 => GameCommand::EdictBlocked,
                18 => GameCommand::ClientSay,
                19 => GameCommand::PausedTic,
                20 => GameCommand::ClearEdict,
                _ => return None,
            },
        )
    }
}

/// The engine's numbers for its calls.
pub proof fn calls_have_their_numbers()
    ensures
        GameCommand::Init.code() == 0 && GameCommand::LoadEntities.code() == 1 && GameCommand::Shutdown.code() == 2,
        GameCommand::ClientConnect.code() == 3 && GameCommand::PutClientInServer.code() == 4,
        GameCommand::ClientUserInfoChanged.code() == 5 && GameCommand::ClientDisconnect.code() == 6,
        GameCommand::ClientCommand.code() == 7 && GameCommand::ClientPreThink.code() == 8,
        GameCommand::ClientThink.code() == 9 && GameCommand::ClientPostThink.code() == 10,
        GameCommand::StartFrame.code() == 11 && GameCommand::SetChangeParams.code() == 12,
        GameCommand::SetNewParams.code() == 13 && GameCommand::ConsoleCommand.code() == 14,
        GameCommand::EdictTouch.code() == 15 && GameCommand::EdictThink.code() == 16,
        GameCommand::EdictBlocked.code() == 17 && GameCommand::ClientSay.code() == 18,
        GameCommand::PausedTic.code() == 19 && GameCommand::ClearEdict.code() == 20,
{
}

} // verus!
