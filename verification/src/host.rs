//! The engine's service numbers, and the text that passes through its buffers.
use vstd::prelude::*;

verus! {

/// The services the engine offers, in the order that numbers them.
#[derive(Clone, Copy, PartialEq, Eq, Debug, Structural)]
pub enum Builtin {
    GetApiVersion,
    DPrint,
    Error,
    GetEntityToken,
    SpawnEnt,
    RemoveEnt,
    PrecacheSound,
    PrecacheModel,
    LightStyle,
    SetOrigin,
    SetSize,
    SetModel,
    BPrint,
    SPrint,
    CenterPrint,
    AmbientSound,
    Sound,
    TraceLine,
    CheckClient,
    StuffCmd,
    LocalCmd,
    Cvar,
    CvarSet,
    FindRadius,
    WalkMove,
    DropToFloor,
    CheckBottom,
    PointContents,
    NextEntity,
    Aim,
    MakeStatic,
    SetSpawnParams,
    ChangeLevel,
    LogFrag,
    GetInfoKey,
    Multicast,
    DisableUpdates,
    WriteByte,
    WriteChar,
    WriteShort,
    WriteLong,
    WriteAngle,
    WriteCoord,
    WriteString,
    WriteEntity,
    FlushSignon,
    MemSet,
    MemCpy,
    StrnCpy,
    Sin,
    Cos,
    Atan2,
    Sqrt,
    Floor,
    Ceil,
    Acos,
    CmdArgc,
    CmdArgv,
    TraceCapsule,
    FsOpenFile,
    FsCloseFile,
    FsReadFile,
    FsWriteFile,
    FsSeekFile,
    FsTellFile,
    FsGetFileList,
    CvarSetFloat,
    CvarString,
    MapExtension,
    StrCmp,
    StrnCmp,
    StriCmp,
    StrniCmp,
    Find,
    ExecuteCommand,
    ConPrint,
    ReadCmd,
    RedirectCmd,
    AddBot,
    RemoveBot,
    SetBotUserInfo,
    SetBotCmd,
    QvmStrftime,
    CmdArgs,
    CmdTokenize,
    StrlCpy,
    StrlCat,
    MakeVectors,
    NextClient,
    PrecacheVwepModel,
    SetPause,
    SetUserInfo,
    MoveToGoal,
    VisibleTo,
}

impl Builtin {
    /// The number of a service.
    pub open spec fn number(self) -> int {
        match self {
            Builtin::GetApiVersion => 0,
            Builtin::DPrint => 1,
            Builtin::Error => 2,
            Builtin::GetEntityToken => 3,
            Builtin::SpawnEnt => 4,
            Builtin::RemoveEnt => 5,
            Builtin::PrecacheSound => 6,
            Builtin::PrecacheModel => 7,
            Builtin::LightStyle => 8,
            Builtin::SetOrigin => 9,
            Builtin::SetSize => 10,
            Builtin::SetModel => 11,
            Builtin::BPrint => 12,
            Builtin::SPrint => 13,
            Builtin::CenterPrint => 14,
            Builtin::AmbientSound => 15,
            Builtin::Sound => 16,
            Builtin::TraceLine => 17,
            Builtin::CheckClient => 18,
            Builtin::StuffCmd => 19,
            Builtin::LocalCmd => 20,
            Builtin::Cvar => 21,
            Builtin::CvarSet => 22,
            Builtin::FindRadius => 23,
            Builtin::WalkMove => 24,
            Builtin::DropToFloor => 25,
            Builtin::CheckBottom => 26,
            Builtin::PointContents => 27,
            Builtin::NextEntity => 28,
            Builtin::Aim => 29,
            Builtin::MakeStatic => 30,
            Builtin::SetSpawnParams => 31,
            Builtin::ChangeLevel => 32,
            Builtin::LogFrag => 33,
            Builtin::GetInfoKey => 34,
            Builtin::Multicast => 35,
            Builtin::DisableUpdates => 36,
            Builtin::WriteByte => 37,
            Builtin::WriteChar => 38,
            Builtin::WriteShort => 39,
            Builtin::WriteLong => 40,
            Builtin::WriteAngle => 41,
            Builtin::WriteCoord => 42,
            Builtin::WriteString => 43,
            Builtin::WriteEntity => 44,
            Builtin::FlushSignon => 45,
            Builtin::MemSet => 46,
            Builtin::MemCpy => 47,
            Builtin::StrnCpy => 48,
            Builtin::Sin => 49,
            Builtin::Cos => 50,
            Builtin::Atan2 => 51,
            Builtin::Sqrt => 52,
            Builtin::Floor => 53,
            Builtin::Ceil => 54,
            Builtin::Acos => 55,
            Builtin::CmdArgc => 56,
            Builtin::CmdArgv => 57,
            Builtin::TraceCapsule => 58,
            Builtin::FsOpenFile => 59,
            Builtin::FsCloseFile => 60,
            Builtin::FsReadFile => 61,
            Builtin::FsWriteFile => 62,
            Builtin::FsSeekFile => 63,
            Builtin::FsTellFile => 64,
            Builtin::FsGetFileList => 65,
            Builtin::CvarSetFloat => 66,
            Builtin::CvarString => 67,
            Builtin::MapExtension => 68,
            Builtin::StrCmp => 69,
            Builtin::StrnCmp => 70,
            Builtin::StriCmp => 71,
            Builtin::StrniCmp => 72,
            Builtin::Find => 73,
            Builtin::ExecuteCommand => 74,
            Builtin::ConPrint => 75,
            Builtin::ReadCmd => 76,
            Builtin::RedirectCmd => 77,
            Builtin::AddBot => 78,
            Builtin::RemoveBot => 79,
            Builtin::SetBotUserInfo => 80,
            Builtin::SetBotCmd => 81,
            Builtin::QvmStrftime => 82,
            Builtin::CmdArgs => 83,
            Builtin::CmdTokenize => 84,
            Builtin::StrlCpy => 85,
            Builtin::StrlCat => 86,
            Builtin::MakeVectors => 87,
            Builtin::NextClient => 88,
            Builtin::PrecacheVwepModel => 89,
            Builtin::SetPause => 90,
            Builtin::SetUserInfo => 91,
            Builtin::MoveToGoal => 92,
            Builtin::VisibleTo => 93,
        }
    }

    pub fn code(self) -> (r: i32)
        ensures
            r == self.number(),
    {
        match self {
            Builtin::GetApiVersion => 0,
            Builtin::DPrint => 1,
            Builtin::Error => 2,
            Builtin::GetEntityToken => 3,
            Builtin::SpawnEnt => 4,
            Builtin::RemoveEnt => 5,
            Builtin::PrecacheSound => 6,
            Builtin::PrecacheModel => 7,
            Builtin::LightStyle => 8,
            Builtin::SetOrigin => 9,
            Builtin::SetSize => 10,
            Builtin::SetModel => 11,
            Builtin::BPrint => 12,
            Builtin::SPrint => 13,
            Builtin::CenterPrint => 14,
            Builtin::AmbientSound => 15,
            Builtin::Sound => 16,
            Builtin::TraceLine => 17,
            Builtin::CheckClient => 18,
            Builtin::StuffCmd => 19,
            Builtin::LocalCmd => 20,
            Builtin::Cvar => 21,
            Builtin::CvarSet => 22,
            Builtin::FindRadius => 23,
            Builtin::WalkMove => 24,
            Builtin::DropToFloor => 25,
            Builtin::CheckBottom => 26,
            Builtin::PointContents => 27,
            Builtin::NextEntity => 28,
            Builtin::Aim => 29,
            Builtin::MakeStatic => 30,
            Builtin::SetSpawnParams => 31,
            Builtin::ChangeLevel => 32,
            Builtin::LogFrag => 33,
            Builtin::GetInfoKey => 34,
            Builtin::Multicast => 35,
            Builtin::DisableUpdates => 36,
            Builtin::WriteByte => 37,
            Builtin::WriteChar => 38,
            Builtin::WriteShort => 39,
            Builtin::WriteLong => 40,
            Builtin::WriteAngle => 41,
            Builtin::WriteCoord => 42,
            Builtin::WriteString => 43,
            Builtin::WriteEntity => 44,
            Builtin::FlushSignon => 45,
            Builtin::MemSet => 46,
            Builtin::MemCpy => 47,
            Builtin::StrnCpy => 48,
            Builtin::Sin => 49,
            Builtin::Cos => 50,
            Builtin::Atan2 => 51,
            Builtin::Sqrt => 52,
            Builtin::Floor => 53,
            Builtin::Ceil => 54,
            Builtin::Acos => 55,
            Builtin::CmdArgc => 56,
            Builtin::CmdArgv => 57,
            Builtin::TraceCapsule => 58,
            Builtin::FsOpenFile => 59,
            Builtin::FsCloseFile => 60,
            Builtin::FsReadFile => 61,
            Builtin::FsWriteFile => 62,
            Builtin::FsSeekFile => 63,
            Builtin::FsTellFile => 64,
            Builtin::FsGetFileList => 65,
            Builtin::CvarSetFloat => 66,
            Builtin::CvarString => 67,
            Builtin::MapExtension => 68,
            Builtin::StrCmp => 69,
            Builtin::StrnCmp => 70,
            Builtin::StriCmp => 71,
            Builtin::StrniCmp => 72,
            Builtin::Find => 73,
            Builtin::ExecuteCommand => 74,
            Builtin::ConPrint => 75,
            Builtin::ReadCmd => 76,
            Builtin::RedirectCmd => 77,
            Builtin::AddBot => 78,
            Builtin::RemoveBot => 79,
            Builtin::SetBotUserInfo => 80,
            Builtin::SetBotCmd => 81,
            Builtin::QvmStrftime => 82,
            Builtin::CmdArgs => 83,
            Builtin::CmdTokenize => 84,
            Builtin::StrlCpy => 85,
            Builtin::StrlCat => 86,
            Builtin::MakeVectors => 87,
            Builtin::NextClient => 88,
            Builtin::PrecacheVwepModel => 89,
            Builtin::SetPause => 90,
            Builtin::SetUserInfo => 91,
            Builtin::MoveToGoal => 92,
            Builtin::VisibleTo => 93,
        }
    }
}

/// A 32-bit pattern as a service argument: widened with zeros.
pub open spec fn packed(bits: u32) -> int {
    bits as int
}

/// Pass the bit pattern of a number to a service.
pub fn pf(bits: u32) -> (r: i64)
    ensures
        r == packed(bits),
{
    bits as i64
}

/// The bit pattern that a service hands back: the low 32 bits of its result.
pub fn rf(v: i64) -> (r: u32)
    ensures
        r == v % 0x1_0000_0000,
{
    let u: u64 = v as u64;
    let low: u32 = (u & 0xffff_ffff) as u32;
    proof {
        assert(u & 0xffff_ffff == u % 0x1_0000_0000) by (bit_vector);
        assert((u as int - v) % 0x1_0000_0000 == 0) by {
            assert(v >= 0 ==> u == v as u64) by (bit_vector)
                requires
                    u == v as u64,
            ;
            assert(v < 0 ==> u == v + 0x1_0000_0000_0000_0000) by (bit_vector)
                requires
                    u == v as u64,
            ;
        }
    }
    low
}

/// A number passed to a service and handed back is the same number.
pub proof fn packing_round_trip(bits: u32)
    ensures
        packed(bits) % 0x1_0000_0000 == bits,
{
}

/// The place of the first zero byte, or the length where there is none.
pub open spec fn text_end(buf: Seq<u8>) -> int
    decreases buf.len(),
{
    if buf.len() == 0 {
        0
    } else if buf[0] == 0 {
        0
    } else {
        1 + text_end(buf.subrange(1, buf.len() as int))
    }
}

proof fn lemma_text_end(buf: Seq<u8>, end: int)
    requires
        0 <= end <= buf.len(),
        forall|i: int| 0 <= i < end ==> buf[i] != 0,
        end < buf.len() ==> buf[end] == 0,
    ensures
        text_end(buf) == end,
    decreases buf.len(),
{
    if buf.len() > 0 && end > 0 {
        let rest = buf.subrange(1, buf.len() as int);
        lemma_text_end(rest, end - 1);
    }
}

/// `core::str::from_utf8`: bytes that are valid UTF-8 as the text they encode, and nothing for
/// other bytes.
#[verifier::external_body]
fn checked_text(bytes: &[u8]) -> (r: Option<&str>)
    ensures
        match r {
            Some(s) => vstd::utf8::valid_utf8(bytes@) && s@ == vstd::utf8::decode_utf8(bytes@),
            None => !vstd::utf8::valid_utf8(bytes@),
        },
{
    core::str::from_utf8(bytes).ok()
}

/// What a service has left in a buffer: the text up to the first zero byte, empty where that is not
/// valid UTF-8.
pub fn cstr_from_buf(buf: &[u8]) -> (r: &str)
    ensures
        0 <= text_end(buf@) <= buf@.len(),
        ({
            let text = buf@.subrange(0, text_end(buf@));
            r@ == if vstd::utf8::valid_utf8(text) {
                vstd::utf8::decode_utf8(text)
            } else {
                Seq::empty()
            }
        }),
{
    let mut end: usize = 0;
    while end < buf.len() && buf[end] != 0
        invariant
            end <= buf@.len(),
            forall|i: int| 0 <= i < end ==> buf@[i] != 0,
        decreases buf.len() - end,
    {
        end = end + 1;
    }
    proof {
        lemma_text_end(buf@, end as int);
    }
    let text: &[u8] = vstd::slice::slice_subrange(buf, 0, end);
    match checked_text(text) {
        Some(s) => s,
        None => {
            proof {
                reveal_strlit("");
                assert(""@ =~= Seq::<char>::empty());
            }
            ""
        },
    }
}

/// The bytes without those that are zero, in order.
pub open spec fn without_zeros(s: Seq<u8>) -> Seq<u8>
    decreases s.len(),
{
    if s.len() == 0 {
        Seq::empty()
    } else {
        let rest = without_zeros(s.drop_last());
        if s.last() == 0 {
            rest
        } else {
            rest.push(s.last())
        }
    }
}

/// Text to hand to the engine, which ends a string at its first zero byte: zero bytes inside it are
/// left out.
pub fn cstring(text: &[u8]) -> (r: Vec<u8>)
    ensures
        r@ == without_zeros(text@),
        forall|i: int| 0 <= i < r@.len() ==> r@[i] != 0,
{
    let mut r: Vec<u8> = Vec::new();
    let mut i: usize = 0;
    assert(text@.take(0) =~= Seq::<u8>::empty());
    while i < text.len()
        invariant
            i <= text@.len(),
            r@ == without_zeros(text@.take(i as int)),
            forall|k: int| 0 <= k < r@.len() ==> r@[k] != 0,
        decreases text.len() - i,
    {
        let ghost next = text@.take(i + 1);
        assert(next.drop_last() =~= text@.take(i as int));
        assert(next.last() == text@[i as int]);
        if text[i] != 0 {
            r.push(text[i]);
        }
        i = i + 1;
    }
    assert(text@.take(i as int) =~= text@);
    r
}

/// Text without zero bytes is handed over as it is.
pub proof fn plain_text_passes_unchanged(s: Seq<u8>)
    requires
        forall|i: int| 0 <= i < s.len() ==> s[i] != 0,
    ensures
        without_zeros(s) == s,
    decreases s.len(),
{
    if s.len() > 0 {
        plain_text_passes_unchanged(s.drop_last());
        assert(s.drop_last().push(s.last()) =~= s);
    }
}

/// A text ends at its first zero, or with its buffer.
pub proof fn texts_end_at_the_first_zero(buf: Seq<u8>)
    ensures
        0 <= text_end(buf) <= buf.len(),
        text_end(buf) < buf.len() ==> buf[text_end(buf)] == 0,
        forall|i: int| 0 <= i < text_end(buf) ==> buf[i] != 0,
    decreases buf.len(),
{
    if buf.len() > 0 && buf[0] != 0 {
        let rest = buf.subrange(1, buf.len() as int);
        texts_end_at_the_first_zero(rest);
        assert forall|i: int| 0 <= i < text_end(buf) implies buf[i] != 0 by {
            if i > 0 {
                assert(rest[i - 1] == buf[i]);
            }
        }
    }
}

/// Taking the zeros out leaves none, and loses nothing else: appending a byte appends it, unless it is
/// one.
pub proof fn only_zeros_are_taken_out(s: Seq<u8>, x: u8)
    ensures
        forall|i: int| 0 <= i < without_zeros(s).len() ==> without_zeros(s)[i] != 0,
        x != 0 ==> without_zeros(s.push(x)) == without_zeros(s).push(x),
        x == 0 ==> without_zeros(s.push(x)) == without_zeros(s),
    decreases s.len(),
{
    assert(s.push(x).drop_last() == s);
    if s.len() > 0 {
        only_zeros_are_taken_out(s.drop_last(), 0);
    }
}

} // verus!
