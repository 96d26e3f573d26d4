use vstd::prelude::*;

verus! {

/// An instant: whole seconds since the Unix epoch and the nanoseconds past them.
#[derive(Clone, Copy, Debug, PartialEq, Eq, Structural)]
pub struct Timestamp {
    pub secs: i64,
    pub nanos: u32,
}

/// Whether instant `a` comes strictly before instant `b`.
pub open spec fn earlier(a: Timestamp, b: Timestamp) -> bool {
    a.secs < b.secs || (a.secs == b.secs && a.nanos < b.nanos)
}

impl Timestamp {
    /// Whether this instant comes strictly before `other`.
    pub fn is_before(&self, other: &Timestamp) -> (r: bool)
        ensures
            r == earlier(*self, *other),
    {
        self.secs < other.secs || (self.secs == other.secs && self.nanos < other.nanos)
    }
}

/// A stored user account.
#[derive(Debug)]
pub struct UserRow {
    pub id: String,
    pub email: String,
    pub username: String,
    pub password_hash: String,
    pub status: String,
    pub deactivated_at: Option<Timestamp>,
    pub created_at: Timestamp,
    pub updated_at: Timestamp,
}

/// The authenticated user of a request.
#[derive(Debug)]
pub struct CurrentUser {
    pub id: String,
    pub username: String,
    pub email: String,
    pub status: String,
    pub deactivated_at: Option<Timestamp>,
    pub created_at: Timestamp,
    pub updated_at: Timestamp,
}

/// A stored refresh token: its id, its owner, whether it was revoked and when
/// it expires.
#[derive(Debug)]
pub struct RefreshTokenRow {
    pub id: String,
    pub user_id: String,
    pub revoked: bool,
    pub expires_at: Timestamp,
}

/// The latest instant, in Unix seconds, that a timestamp of this library
/// stands for: the last second of the year 262142, the end of the calendar
/// range of the date library that the server renders instants with.
pub const LATEST_INSTANT_SECS: i64 = 8_210_266_876_799;

#[verifier::external_type_specification]
#[verifier::external_body]
pub struct ExSystemTime(std::time::SystemTime);

/// Calls `SystemTime::now`. Trusted; nothing is stated of the instant, which
/// is the clock's.
#[verifier::external_body]
fn system_now() -> (t: std::time::SystemTime) {
    std::time::SystemTime::now()
}

/// Calls `SystemTime::duration_since` with `UNIX_EPOCH`: the time elapsed
/// since the epoch, `None` for an instant before it. Trusted; nothing is
/// stated of the duration, which depends on the instant.
#[verifier::external_body]
fn elapsed_since_epoch(t: std::time::SystemTime) -> (r: Option<std::time::Duration>) {
    t.duration_since(std::time::UNIX_EPOCH).ok()
}

/// Calls `Duration::as_secs`: the whole seconds of `d`. Trusted; nothing is
/// stated, the duration being opaque here.
#[verifier::external_body]
fn whole_seconds(d: &std::time::Duration) -> (r: u64) {
    d.as_secs()
}

/// Calls `Duration::subsec_nanos`: the nanoseconds past the whole seconds of
/// `d`. Trusted: as documented, they are fewer than one second's worth.
#[verifier::external_body]
fn subsec_nanos(d: &std::time::Duration) -> (r: u32)
    ensures
        r < 1_000_000_000,
{
    d.subsec_nanos()
}

/// The current time, or `None` where the clock stands before the Unix epoch
/// or past [`LATEST_INSTANT_SECS`]. Which instant comes back is the clock's.
pub fn now_timestamp() -> (r: Option<Timestamp>)
    ensures
        r matches Some(t) ==> 0 <= t.secs <= LATEST_INSTANT_SECS && t.nanos < 1_000_000_000,
{
    let elapsed = elapsed_since_epoch(system_now());
    match elapsed {
        None => None,
        Some(d) => {
            let secs = whole_seconds(&d);
            if secs > LATEST_INSTANT_SECS as u64 {
                None
            } else {
                Some(Timestamp { secs: secs as i64, nanos: subsec_nanos(&d) })
            }
        },
    }
}

} // verus!
