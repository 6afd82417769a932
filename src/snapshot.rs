use vstd::prelude::*;
use vstd::string::*;

verus! {

/// Largest stored charge value: 100 percent, in hundredths of a percent.
pub const FULL_CHARGE: u32 = 10000;

/// Charging state of the power source when a snapshot was taken.
#[derive(Clone, Copy, Debug, PartialEq, Eq, Structural)]
pub enum SnapshotStatus {
    Charging,
    Discharging,
    Full,
    Empty,
    Unknown,
}

/// The text under which a status is stored in the log.
pub open spec fn status_text(s: SnapshotStatus) -> Seq<char> {
    match s {
        SnapshotStatus::Charging => "charging"@,
        SnapshotStatus::Discharging => "discharging"@,
        SnapshotStatus::Full => "full"@,
        SnapshotStatus::Empty => "empty"@,
        SnapshotStatus::Unknown => "unknown"@,
    }
}

/// The status stored under text `t`, if any.
pub open spec fn status_of_text(t: Seq<char>) -> Option<SnapshotStatus> {
    if t == "charging"@ {
        Some(SnapshotStatus::Charging)
    } else if t == "discharging"@ {
        Some(SnapshotStatus::Discharging)
    } else if t == "full"@ {
        Some(SnapshotStatus::Full)
    } else if t == "empty"@ {
        Some(SnapshotStatus::Empty)
    } else if t == "unknown"@ {
        Some(SnapshotStatus::Unknown)
    } else {
        None
    }
}

/// One timestamped reading of the power source.
#[derive(Clone, Copy, Debug, PartialEq, Eq, Structural)]
pub struct BatterySnapshot {
    /// State of charge in hundredths of a percent (0 to 10000).
    pub percent_hundredths: u32,
    /// Seconds since the Unix epoch.
    pub timestamp: i64,
    pub status: SnapshotStatus,
}

impl BatterySnapshot {
    pub open spec fn wf(&self) -> bool {
        self.percent_hundredths <= FULL_CHARGE
    }
}

/// Whether two texts hold the same characters.
pub fn same_text(a: &str, b: &str) -> (r: bool)
    ensures
        r == (a@ == b@),
{
    let n = a.unicode_len();
    if n != b.unicode_len() {
        return false;
    }
    let mut i: usize = 0;
    while i < n
        invariant
            n == a@.len(),
            n == b@.len(),
            0 <= i <= n,
            forall|k: int| 0 <= k < i ==> a@[k] == b@[k],
        decreases n - i,
    {
        if a.get_char(i) != b.get_char(i) {
            return false;
        }
        i = i + 1;
    }
    assert(a@ =~= b@);
    true
}

impl SnapshotStatus {
    /// The text stored in the log for this status.
    pub fn label(&self) -> (r: &'static str)
        ensures
            r@ == status_text(*self),
    {
        match self {
            SnapshotStatus::Charging => "charging",
            SnapshotStatus::Discharging => "discharging",
            SnapshotStatus::Full => "full",
            SnapshotStatus::Empty => "empty",
            SnapshotStatus::Unknown => "unknown",
        }
    }

    /// Reads a stored status text back; `None` for a text that no status has.
    pub fn from_label(t: &str) -> (r: Option<SnapshotStatus>)
        ensures
            r == status_of_text(t@),
    {
        proof {
            reveal_strlit("charging");
            reveal_strlit("discharging");
            reveal_strlit("full");
            reveal_strlit("empty");
            reveal_strlit("unknown");
        }
        if same_text(t, "charging") {
            Some(SnapshotStatus::Charging)
        } else if same_text(t, "discharging") {
            Some(SnapshotStatus::Discharging)
        } else if same_text(t, "full") {
            Some(SnapshotStatus::Full)
        } else if same_text(t, "empty") {
            Some(SnapshotStatus::Empty)
        } else if same_text(t, "unknown") {
            Some(SnapshotStatus::Unknown)
        } else {
            None
        }
    }
}

/// Every status reads back as itself from the text it is stored under.
pub proof fn lemma_status_text_round_trip(st: SnapshotStatus)
    ensures
        status_of_text(status_text(st)) == Some(st),
{
    reveal_strlit("charging");
    reveal_strlit("discharging");
    reveal_strlit("full");
    reveal_strlit("empty");
    reveal_strlit("unknown");
    let t = status_text(st);
    if st != SnapshotStatus::Charging {
        assert(t.len() != "charging"@.len() || t[0] != "charging"@[0]);
    }
    if st != SnapshotStatus::Discharging {
        assert(t.len() != "discharging"@.len() || t[0] != "discharging"@[0]);
    }
    if st != SnapshotStatus::Full {
        assert(t.len() != "full"@.len() || t[0] != "full"@[0]);
    }
    if st != SnapshotStatus::Empty {
        assert(t.len() != "empty"@.len() || t[0] != "empty"@[0]);
    }
}

} // verus!
