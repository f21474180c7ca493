//! Control-surface state: producer toggles, peering configuration and the uplink.
use vstd::prelude::*;

verus! {

/// Uppercase form of a string, as `str::to_uppercase` gives it.
pub uninterp spec fn upper_of(s: Seq<char>) -> Seq<char>;

/// Relies on `str::to_uppercase`: the result depends on the characters alone.
#[verifier::external_body]
fn uppercase(s: &str) -> (r: String)
    ensures
        r@ == upper_of(s@),
{
    s.to_uppercase()
}

/// The independent noise producers.
#[derive(PartialEq, Eq, Structural, Clone, Copy, Debug)]
pub enum Harvester {
    Trng,
    Audio,
    System,
    Mouse,
    Video,
}

/// The producer that an uppercase control name stands for.
pub open spec fn harvester_named(n: Seq<char>) -> Option<Harvester> {
    if n == "TRNG"@ || n == "HARDWARE/TRNG"@ {
        Some(Harvester::Trng)
    } else if n == "AUDIO"@ || n == "AUDIO (MIC)"@ {
        Some(Harvester::Audio)
    } else if n == "SYS"@ || n == "SYSTEM"@ || n == "SYSTEM/CPU"@ {
        Some(Harvester::System)
    } else if n == "MOUSE"@ || n == "HID (MOUSE)"@ {
        Some(Harvester::Mouse)
    } else if n == "VIDEO"@ || n == "VIDEO (CAM)"@ {
        Some(Harvester::Video)
    } else {
        None
    }
}

fn same_text(s: &String, lit: &str) -> (r: bool)
    ensures
        r == (s@ == lit@),
{
    let l = String::from_str(lit);
    *s == l
}

/// The producer that a control name stands for, whatever its case.
pub fn harvester_from_name(name: &str) -> (r: Option<Harvester>)
    ensures
        r == harvester_named(upper_of(name@)),
{
    let n = uppercase(name);
    if same_text(&n, "TRNG") || same_text(&n, "HARDWARE/TRNG") {
        Some(Harvester::Trng)
    } else if same_text(&n, "AUDIO") || same_text(&n, "AUDIO (MIC)") {
        Some(Harvester::Audio)
    } else if same_text(&n, "SYS") || same_text(&n, "SYSTEM") || same_text(&n, "SYSTEM/CPU") {
        Some(Harvester::System)
    } else if same_text(&n, "MOUSE") || same_text(&n, "HID (MOUSE)") {
        Some(Harvester::Mouse)
    } else if same_text(&n, "VIDEO") || same_text(&n, "VIDEO (CAM)") {
        Some(Harvester::Video)
    } else {
        None
    }
}

/// Per-producer enable flags, read by producers before each sample.
#[derive(Clone, Copy)]
pub struct HarvesterStates {
    pub trng: bool,
    pub audio: bool,
    pub system: bool,
    pub mouse: bool,
    pub video: bool,
}

/// The flag of producer `h`.
pub open spec fn flag_of(s: HarvesterStates, h: Harvester) -> bool {
    match h {
        Harvester::Trng => s.trng,
        Harvester::Audio => s.audio,
        Harvester::System => s.system,
        Harvester::Mouse => s.mouse,
        Harvester::Video => s.video,
    }
}

impl HarvesterStates {
    /// Every producer disabled.
    pub fn all_off() -> (r: Self)
        ensures
            forall|h: Harvester| !flag_of(r, h),
    {
        HarvesterStates { trng: false, audio: false, system: false, mouse: false, video: false }
    }

    /// Whether producer `h` is enabled.
    pub fn is_enabled(&self, h: Harvester) -> (r: bool)
        ensures
            r == flag_of(*self, h),
    {
        match h {
            Harvester::Trng => self.trng,
            Harvester::Audio => self.audio,
            Harvester::System => self.system,
            Harvester::Mouse => self.mouse,
            Harvester::Video => self.video,
        }
    }

    /// Sets the flag of producer `h`, leaving the others.
    pub fn set(&mut self, h: Harvester, active: bool)
        ensures
            flag_of(*final(self), h) == active,
            forall|g: Harvester| g != h ==> flag_of(*final(self), g) == flag_of(*old(self), g),
    {
        match h {
            Harvester::Trng => self.trng = active,
            Harvester::Audio => self.audio = active,
            Harvester::System => self.system = active,
            Harvester::Mouse => self.mouse = active,
            Harvester::Video => self.video = active,
        }
    }

    /// Sets the flag of the producer that `name` stands for; an unknown name changes
    /// nothing. Returns the producer.
    pub fn toggle_by_name(&mut self, name: &str, active: bool) -> (r: Option<Harvester>)
        ensures
            r == harvester_named(upper_of(name@)),
            r matches Some(h) ==> flag_of(*final(self), h) == active && forall|g: Harvester|
                g != h ==> flag_of(*final(self), g) == flag_of(*old(self), g),
            r is None ==> *final(self) == *old(self),
    {
        let h = harvester_from_name(name);
        match h {
            Some(x) => self.set(x, active),
            None => {},
        }
        h
    }
}

/// Default port of the peer ingestion listener.
pub const DEFAULT_P2P_PORT: u16 = 9000;

/// Whether no entry of `s` appears twice.
pub open spec fn distinct(s: Seq<Seq<char>>) -> bool {
    forall|i: int, j: int| 0 <= i < j < s.len() ==> s[i] != s[j]
}

/// Views of a list of strings.
pub open spec fn texts(v: Seq<String>) -> Seq<Seq<char>> {
    v.map_values(|s: String| s@)
}

/// What a peering configuration holds, as plain values.
pub struct P2PView {
    /// Whether peering is enabled.
    pub active: bool,
    /// Port of the ingestion listener.
    pub listen_port: u16,
    /// Peer addresses, in the order they were added.
    pub peers: Seq<Seq<char>>,
    /// Payloads accepted from peers.
    pub received: nat,
}

/// Peering configuration: listener, distinct peer addresses and a receive counter.
pub struct P2PConfig {
    active: bool,
    listen_port: u16,
    peers: Vec<String>,
    received_count: u64,
}

impl View for P2PConfig {
    type V = P2PView;

    closed spec fn view(&self) -> P2PView {
        P2PView {
            active: self.active,
            listen_port: self.listen_port,
            peers: texts(self.peers@),
            received: self.received_count as nat,
        }
    }
}

impl P2PConfig {
    /// No peer is listed twice.
    pub open spec fn wf(&self) -> bool {
        distinct(self@.peers)
    }

    /// Peering off, on the default port, with no peers.
    pub fn new() -> (r: Self)
        ensures
            r.wf(),
            r@ == (P2PView {
                active: false,
                listen_port: DEFAULT_P2P_PORT,
                peers: Seq::empty(),
                received: 0,
            }),
    {
        let r = P2PConfig {
            active: false,
            listen_port: DEFAULT_P2P_PORT,
            peers: Vec::new(),
            received_count: 0,
        };
        assert(r@.peers =~= Seq::<Seq<char>>::empty());
        r
    }

    /// Turns peering on or off.
    pub fn set_active(&mut self, active: bool)
        requires
            old(self).wf(),
        ensures
            final(self).wf(),
            final(self)@ == (P2PView { active, ..old(self)@ }),
    {
        self.active = active;
    }

    /// Sets the listener port.
    pub fn set_port(&mut self, port: u16)
        requires
            old(self).wf(),
        ensures
            final(self).wf(),
            final(self)@ == (P2PView { listen_port: port, ..old(self)@ }),
    {
        self.listen_port = port;
    }

    /// Whether peering is enabled.
    pub fn is_active(&self) -> (r: bool)
        ensures
            r == self@.active,
    {
        self.active
    }

    /// Port of the ingestion listener.
    pub fn listen_port(&self) -> (r: u16)
        ensures
            r == self@.listen_port,
    {
        self.listen_port
    }

    /// Adds `peer` unless it is already listed; returns whether it was added.
    pub fn add_peer(&mut self, peer: String) -> (r: bool)
        requires
            old(self).wf(),
        ensures
            final(self).wf(),
            r == !old(self)@.peers.contains(peer@),
            final(self)@ == (P2PView {
                peers: if r {
                    old(self)@.peers.push(peer@)
                } else {
                    old(self)@.peers
                },
                ..old(self)@
            }),
    {
        let mut i: usize = 0;
        while i < self.peers.len()
            invariant
                i <= self.peers@.len(),
                self.peers@ == old(self).peers@,
                self.active == old(self).active,
                self.listen_port == old(self).listen_port,
                self.received_count == old(self).received_count,
                old(self).wf(),
                forall|j: int| 0 <= j < i ==> self.peers@[j]@ != peer@,
            decreases self.peers@.len() - i,
        {
            if self.peers[i] == peer {
                assert(self@.peers[i as int] == peer@);
                assert(self@ == old(self)@);
                return false;
            }
            i += 1;
        }
        assert(!self@.peers.contains(peer@)) by {
            assert forall|j: int| 0 <= j < self@.peers.len() implies self@.peers[j] != peer@ by {
                assert(self.peers@[j]@ != peer@);
            }
        }
        let ghost before = self@.peers;
        self.peers.push(peer);
        assert(self@.peers =~= before.push(peer@));
        true
    }

    /// Number of peers.
    pub fn peer_count(&self) -> (r: usize)
        ensures
            r == self@.peers.len(),
    {
        self.peers.len()
    }

    /// Peers that an extraction is forwarded to: all of them while peering is
    /// enabled, none otherwise.
    pub fn fan_out_peers(&self) -> (r: Vec<String>)
        ensures
            texts(r@) == if self@.active {
                self@.peers
            } else {
                Seq::<Seq<char>>::empty()
            },
    {
        let mut r: Vec<String> = Vec::new();
        if !self.active {
            assert(texts(r@) =~= Seq::<Seq<char>>::empty());
            return r;
        }
        let mut i: usize = 0;
        while i < self.peers.len()
            invariant
                i <= self.peers@.len(),
                texts(r@) == self@.peers.take(i as int),
            decreases self.peers@.len() - i,
        {
            let p = self.peers[i].clone();
            assert(p@ == self@.peers[i as int]);
            let ghost before = r@;
            r.push(p);
            assert(texts(r@) =~= texts(before).push(p@));
            i += 1;
            assert(texts(r@) =~= self@.peers.take(i as int));
        }
        assert(self@.peers.take(i as int) =~= self@.peers);
        r
    }

    /// Counts one payload accepted from a peer; the counter stops at its maximum.
    pub fn record_received(&mut self)
        requires
            old(self).wf(),
        ensures
            final(self).wf(),
            final(self)@ == (P2PView {
                received: if old(self)@.received < u64::MAX {
                    old(self)@.received + 1
                } else {
                    old(self)@.received
                },
                ..old(self)@
            }),
    {
        if self.received_count < u64::MAX {
            self.received_count = self.received_count + 1;
        }
    }

    /// Payloads accepted from peers.
    pub fn received_count(&self) -> (r: u64)
        ensures
            r == self@.received,
    {
        self.received_count
    }
}

/// URL of the collector at `ip`.
pub open spec fn uplink_url_for(ip: Seq<char>) -> Seq<char> {
    "http://"@ + ip + ":8000/ingest"@
}

/// The network uplink: whether it is on, where it sends, and when it last sent.
pub struct Uplink {
    /// Whether the uplink is enabled.
    pub enabled: bool,
    /// Collector URL.
    pub url: String,
    /// Second of the last send, zero before the first.
    pub last_sent: u64,
}

impl Uplink {
    /// An enabled uplink to the collector at `ip` that has not sent yet.
    pub fn to_host(ip: &str) -> (r: Self)
        ensures
            r.enabled,
            r.url@ == uplink_url_for(ip@),
            r.last_sent == 0,
    {
        Uplink { enabled: true, url: collector_url(ip), last_sent: 0 }
    }

    /// Points the uplink at the collector at `ip`.
    pub fn set_target(&mut self, ip: &str)
        ensures
            final(self).url@ == uplink_url_for(ip@),
            final(self).enabled == old(self).enabled,
            final(self).last_sent == old(self).last_sent,
    {
        self.url = collector_url(ip);
    }

    /// Whether an extraction at second `now` is sent: the uplink is enabled and has
    /// not sent during this second or later. A send records `now`.
    pub fn should_send(&mut self, now: u64) -> (r: bool)
        ensures
            r == (old(self).enabled && now > old(self).last_sent),
            final(self).last_sent == if r {
                now
            } else {
                old(self).last_sent
            },
            final(self).enabled == old(self).enabled,
            final(self).url == old(self).url,
    {
        if self.enabled && now > self.last_sent {
            self.last_sent = now;
            true
        } else {
            false
        }
    }
}

/// URL of the collector at `ip`.
pub fn collector_url(ip: &str) -> (r: String)
    ensures
        r@ == uplink_url_for(ip@),
{
    let mut url = String::from_str("http://");
    url.append(ip);
    url.append(":8000/ingest");
    url
}

} // verus!
