use vstd::prelude::*;
use crate::text::{
    utf8, decimal_bytes, signed_decimal_bytes, parse_u32, push_str_bytes, push_decimal,
    push_signed_decimal, str_eq, str_starts_with, parse_u32_str,
};

verus! {

/// What the rest of the program asks of the media player.
pub enum MediaCommand {
    TogglePlay,
    VolumeUp,
    VolumeDown,
    Seek { seconds: i32 },
    StartMedia { path: String },
}

/// One request of VLC's remote-control (`rc`) interface.
pub enum VlcRequest {
    TogglePlay,
    Clear,
    Play,
    Pause,
    Seek(i32),
    VolDown(u32),
    VolUp(u32),
    Add(String),
    Enqueue(String),
    IsPlaying,
    GetLength,
    GetTime,
}

/// How much one press of the volume buttons changes the volume.
pub const VOLUME_STEP: u32 = 10;

/// The bytes written to VLC's socket for a request.
pub open spec fn request_bytes(r: VlcRequest) -> Seq<u8> {
    match r {
        VlcRequest::TogglePlay => utf8("pause"@),
        VlcRequest::Clear => utf8("clear"@),
        VlcRequest::Play => utf8("play"@),
        VlcRequest::Pause => utf8("pause"@),
        VlcRequest::Seek(s) => utf8("seek "@) + signed_decimal_bytes(s as int) + utf8("\n"@),
        VlcRequest::VolDown(step) => utf8("voldown "@) + decimal_bytes(step as nat) + utf8("\n"@),
        VlcRequest::VolUp(step) => utf8("volup "@) + decimal_bytes(step as nat) + utf8("\n"@),
        VlcRequest::Add(media) => utf8("add "@) + utf8(media@) + utf8("\n"@),
        VlcRequest::Enqueue(media) => utf8("enqueue "@) + utf8(media@) + utf8("\n"@),
        VlcRequest::IsPlaying => utf8("is_playing"@),
        VlcRequest::GetLength => utf8("get_length"@),
        VlcRequest::GetTime => utf8("get_time"@),
    }
}

/// How many reply lines VLC sends for a request (lines of status changes not counted).
pub open spec fn request_reply_lines(r: VlcRequest) -> nat {
    match r {
        VlcRequest::Enqueue(_) => 2,
        _ => 1,
    }
}

impl VlcRequest {
    /// The bytes to write to VLC's socket for this request.
    pub fn wire_bytes(&self) -> (bytes: Vec<u8>)
        ensures
            bytes@ == request_bytes(*self),
    {
        let mut out: Vec<u8> = Vec::new();
        match self {
            VlcRequest::TogglePlay => push_str_bytes(&mut out, "pause"),
            VlcRequest::Clear => push_str_bytes(&mut out, "clear"),
            VlcRequest::Play => push_str_bytes(&mut out, "play"),
            VlcRequest::Pause => push_str_bytes(&mut out, "pause"),
            VlcRequest::Seek(s) => {
                push_str_bytes(&mut out, "seek ");
                push_signed_decimal(&mut out, *s as i64);
                push_str_bytes(&mut out, "\n");
            },
            VlcRequest::VolDown(step) => {
                push_str_bytes(&mut out, "voldown ");
                push_decimal(&mut out, *step as u64);
                push_str_bytes(&mut out, "\n");
            },
            VlcRequest::VolUp(step) => {
                push_str_bytes(&mut out, "volup ");
                push_decimal(&mut out, *step as u64);
                push_str_bytes(&mut out, "\n");
            },
            VlcRequest::Add(media) => {
                push_str_bytes(&mut out, "add ");
                push_str_bytes(&mut out, media.as_str());
                push_str_bytes(&mut out, "\n");
            },
            VlcRequest::Enqueue(media) => {
                push_str_bytes(&mut out, "enqueue ");
                push_str_bytes(&mut out, media.as_str());
                push_str_bytes(&mut out, "\n");
            },
            VlcRequest::IsPlaying => push_str_bytes(&mut out, "is_playing"),
            VlcRequest::GetLength => push_str_bytes(&mut out, "get_length"),
            VlcRequest::GetTime => push_str_bytes(&mut out, "get_time"),
        }
        assert(out@ =~= request_bytes(*self));
        out
    }

    /// How many reply lines to read after this request.
    pub fn reply_lines(&self) -> (n: usize)
        ensures
            n == request_reply_lines(*self),
    {
        match self {
            VlcRequest::Enqueue(_) => 2,
            _ => 1,
        }
    }
}

/// Whether a line read from VLC reports a status change rather than answering a request.
pub open spec fn is_status_line(line: Seq<char>) -> bool {
    "status_change"@.len() <= line.len() && line.take("status_change"@.len() as int)
        == "status_change"@
}

/// Whether a line read from VLC reports a status change; such lines are skipped while
/// waiting for a reply.
pub fn is_status_change(line: &str) -> (skip: bool)
    ensures
        skip == is_status_line(line@),
{
    str_starts_with(line, "status_change")
}

/// The answer to `is_playing`: whether the reply line is exactly `1`.
pub fn reply_is_playing(line: &str) -> (playing: bool)
    ensures
        playing == (line@ == "1"@),
{
    str_eq(line, "1")
}

/// The answer to `get_length` or `get_time`: the reply line read as a number of
/// seconds, as `str::parse::<u32>` reads it; `None` where that parse fails.
pub fn reply_seconds(line: &str) -> (secs: Option<u32>)
    ensures
        secs == parse_u32(line@),
{
    parse_u32_str(line)
}

/// What the player loop does for a command.
pub enum VlcPlan {
    /// Send these requests, in order.
    Requests(Vec<VlcRequest>),
    /// Ask for the current time, then seek by this many seconds from it.
    SeekFromCurrent(i32),
}

/// The requests that the player loop sends for a command, in order.
pub open spec fn command_requests(cmd: MediaCommand) -> Seq<VlcRequest> {
    match cmd {
        MediaCommand::StartMedia { path } => seq![
            VlcRequest::Clear,
            VlcRequest::Enqueue(path),
            VlcRequest::GetLength,
            VlcRequest::Play,
        ],
        MediaCommand::TogglePlay => seq![VlcRequest::TogglePlay],
        MediaCommand::VolumeUp => seq![VlcRequest::VolUp(VOLUME_STEP)],
        MediaCommand::VolumeDown => seq![VlcRequest::VolDown(VOLUME_STEP)],
        MediaCommand::Seek { .. } => seq![],
    }
}

/// How the player loop carries out a command: a seek is relative to the current time,
/// which is asked for first; every other command is a fixed list of requests.
pub fn plan_command(cmd: MediaCommand) -> (plan: VlcPlan)
    ensures
        match cmd {
            MediaCommand::Seek { seconds } => plan == VlcPlan::SeekFromCurrent(seconds),
            _ => plan matches VlcPlan::Requests(reqs) && reqs@ == command_requests(cmd),
        },
{
    let ghost c = cmd;
    match cmd {
        MediaCommand::StartMedia { path } => {
            let reqs = vec![
                VlcRequest::Clear,
                VlcRequest::Enqueue(path),
                VlcRequest::GetLength,
                VlcRequest::Play,
            ];
            assert(reqs@ =~= command_requests(c));
            VlcPlan::Requests(reqs)
        },
        MediaCommand::TogglePlay => {
            let reqs = vec![VlcRequest::TogglePlay];
            assert(reqs@ =~= command_requests(c));
            VlcPlan::Requests(reqs)
        },
        MediaCommand::VolumeUp => {
            let reqs = vec![VlcRequest::VolUp(VOLUME_STEP)];
            assert(reqs@ =~= command_requests(c));
            VlcPlan::Requests(reqs)
        },
        MediaCommand::VolumeDown => {
            let reqs = vec![VlcRequest::VolDown(VOLUME_STEP)];
            assert(reqs@ =~= command_requests(c));
            VlcPlan::Requests(reqs)
        },
        MediaCommand::Seek { seconds } => VlcPlan::SeekFromCurrent(seconds),
    }
}

/// The current time, in seconds, as the player loop reads it into an `i32`: the 32 bits
/// of the number, two's complement.
pub open spec fn time_as_i32(secs: u32) -> int {
    if secs <= i32::MAX {
        secs as int
    } else {
        secs - 0x1_0000_0000
    }
}

/// Whether seeking `offset` seconds from `secs` stays within `i32`.
pub open spec fn seek_in_range(secs: u32, offset: i32) -> bool {
    i32::MIN <= time_as_i32(secs) + offset <= i32::MAX
}

/// Whether seeking `offset` seconds from the current time `secs` stays within `i32`.
pub fn seek_fits(secs: u32, offset: i32) -> (fits: bool)
    ensures
        fits == seek_in_range(secs, offset),
{
    let now: i64 = if secs <= 0x7fff_ffff {
        secs as i64
    } else {
        secs as i64 - 0x1_0000_0000
    };
    let target: i64 = now + offset as i64;
    -0x8000_0000 <= target && target <= 0x7fff_ffff
}

/// The position to seek to: `offset` seconds from the current time `secs`.
pub fn seek_target(secs: u32, offset: i32) -> (target: i32)
    requires
        seek_in_range(secs, offset),
    ensures
        target == time_as_i32(secs) + offset,
{
    let now = #[verifier::truncate] (secs as i32);
    assert(#[verifier::truncate] (secs as i32) == (if secs <= 0x7fff_ffffu32 {
        secs as int
    } else {
        secs - 0x1_0000_0000
    })) by (bit_vector);
    now + offset
}

/// The request that seeks `offset` seconds from the current time `secs`.
pub fn seek_request(secs: u32, offset: i32) -> (req: VlcRequest)
    requires
        seek_in_range(secs, offset),
    ensures
        req == VlcRequest::Seek((time_as_i32(secs) + offset) as i32),
{
    VlcRequest::Seek(seek_target(secs, offset))
}

/// VLC answers an enqueue with two lines and every other request with one, so the player
/// reads exactly that many lines after each request.
pub proof fn lemma_one_reply_line_but_for_enqueue(r: VlcRequest)
    ensures
        request_reply_lines(r) == (if r is Enqueue {
            2nat
        } else {
            1nat
        }),
        request_reply_lines(VlcRequest::Clear) == 1,
{
}

} // verus!
