//! Media player entity specific HA service call logic.
//!
//! The command id is validated against the media-player command set; the
//! translation to an HA service call is a reserved hook.

use vstd::prelude::*;
use vstd::string::StringExecFns;

use crate::errors::ServiceError;
use crate::messages::CallService;
use crate::text::str_eq_str;

verus! {

/// The media-player command ids the remote may send.
pub open spec fn is_media_player_cmd(s: Seq<char>) -> bool {
    ||| s == "on"@
    ||| s == "off"@
    ||| s == "toggle"@
    ||| s == "play_pause"@
    ||| s == "stop"@
    ||| s == "previous"@
    ||| s == "next"@
    ||| s == "fast_forward"@
    ||| s == "rewind"@
    ||| s == "seek"@
    ||| s == "volume"@
    ||| s == "volume_up"@
    ||| s == "volume_down"@
    ||| s == "mute_toggle"@
    ||| s == "mute"@
    ||| s == "unmute"@
    ||| s == "repeat"@
    ||| s == "shuffle"@
    ||| s == "channel_up"@
    ||| s == "channel_down"@
}

/// Whether this command id belongs to the media-player command set.
pub fn media_player_cmd_valid(s: &str) -> (r: bool)
    ensures
        r == is_media_player_cmd(s@),
{
    str_eq_str(s, "on") || str_eq_str(s, "off") || str_eq_str(s, "toggle") || str_eq_str(
        s,
        "play_pause",
    ) || str_eq_str(s, "stop") || str_eq_str(s, "previous") || str_eq_str(s, "next")
        || str_eq_str(s, "fast_forward") || str_eq_str(s, "rewind") || str_eq_str(s, "seek")
        || str_eq_str(s, "volume") || str_eq_str(s, "volume_up") || str_eq_str(s, "volume_down")
        || str_eq_str(s, "mute_toggle") || str_eq_str(s, "mute") || str_eq_str(s, "unmute")
        || str_eq_str(s, "repeat") || str_eq_str(s, "shuffle") || str_eq_str(s, "channel_up")
        || str_eq_str(s, "channel_down")
}

/// Translate a media-player entity command into an HA service call.  A
/// known command id is not translated yet (a reserved hook); an unknown
/// one is rejected.
pub fn handle_media_player(msg: &CallService) -> (r: Result<(String, Option<String>),
    ServiceError>)
    ensures
        r is Err,
        (match r {
            Err(e) => if is_media_player_cmd(msg.command.cmd_id@) {
                e is NotYetImplemented
            } else {
                e matches ServiceError::BadRequest(_)
            },
            Ok(_) => false,
        }),
{
    if media_player_cmd_valid(msg.command.cmd_id.as_str()) {
        Err(ServiceError::NotYetImplemented)
    } else {
        Err(ServiceError::BadRequest(String::from_str("Invalid media player command")))
    }
}

} // verus!
