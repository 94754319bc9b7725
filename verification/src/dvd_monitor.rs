use vstd::prelude::*;
use crate::text::str_eq;

verus! {

/// What kind of disc is in the drive.
#[derive(Debug, Clone)]
pub enum DiskType {
    Dvd,
    Cd { disc_id: String },
}

/// A change at the disc drive.
#[derive(Debug, Clone)]
pub enum DiskReaderEvent {
    Inserted(DiskType),
    Ejected,
}

impl DiskReaderEvent {
    /// A copy of the event.
    pub fn duplicate(&self) -> (copy: DiskReaderEvent)
        ensures
            copy == *self,
    {
        match self {
            DiskReaderEvent::Inserted(DiskType::Dvd) => DiskReaderEvent::Inserted(DiskType::Dvd),
            DiskReaderEvent::Inserted(DiskType::Cd { disc_id }) => DiskReaderEvent::Inserted(
                DiskType::Cd { disc_id: disc_id.clone() },
            ),
            DiskReaderEvent::Ejected => DiskReaderEvent::Ejected,
        }
    }
}

/// Whether a device, known by its system name, is the watched disc drive `sr0`.
pub open spec fn is_watched_drive(sysname: Option<&str>) -> bool {
    match sysname {
        Some(name) => name@ == "sr0"@,
        None => false,
    }
}

/// The events that one udev event of a block device gives: none unless the device is the
/// watched drive; then an ejection where the eject request property is set, followed by
/// an insertion (taken to be a DVD) where the media change property is set.
pub open spec fn device_events(sysname: Option<&str>, eject_request: bool, media_change: bool) -> Seq<
    DiskReaderEvent,
> {
    if is_watched_drive(sysname) {
        (if eject_request {
            seq![DiskReaderEvent::Ejected]
        } else {
            seq![]
        }) + (if media_change {
            seq![DiskReaderEvent::Inserted(DiskType::Dvd)]
        } else {
            seq![]
        })
    } else {
        seq![]
    }
}

/// The disc events to send for one udev event of a block device. `sysname` is the
/// device's system name where it is valid UTF-8; `eject_request` and `media_change` say
/// whether the `DISK_EJECT_REQUEST` and `DISK_MEDIA_CHANGE` properties are present.
pub fn events_for_device(sysname: Option<&str>, eject_request: bool, media_change: bool) -> (events:
    Vec<DiskReaderEvent>)
    ensures
        events@ == device_events(sysname, eject_request, media_change),
{
    let mut events: Vec<DiskReaderEvent> = Vec::new();
    let watched = match sysname {
        Some(name) => str_eq(name, "sr0"),
        None => false,
    };
    if !watched {
        assert(events@ =~= device_events(sysname, eject_request, media_change));
        return events;
    }
    if eject_request {
        events.push(DiskReaderEvent::Ejected);
    }
    if media_change {
        events.push(DiskReaderEvent::Inserted(DiskType::Dvd));
    }
    assert(events@ =~= device_events(sysname, eject_request, media_change));
    events
}

/// Whether a readiness event of the poller calls for reading the udev socket: it must
/// carry the socket's token (0) and report it writable.
pub fn socket_ready(token: usize, writable: bool) -> (scan: bool)
    ensures
        scan == (token == 0 && writable),
{
    token == 0 && writable
}

} // verus!
