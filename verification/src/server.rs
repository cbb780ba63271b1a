use vstd::prelude::*;
use std::collections::HashMap;
use vstd::std_specs::iter::IteratorSpec;
use vstd::std_specs::hash::spec_hash_map_iter;
use crate::settings::SERVER_PORT;
use crate::text::{decimal, digit_char, usize_to_string};

verus! {

/// How long, in nanoseconds, a caster stays listed after its last
/// announcement.
pub const TTL_NS: u64 = 5_000_000_000;

/// The bytes of a caster's announcement: `policast`.
pub open spec fn discovery_message() -> Seq<u8> {
    seq![112u8, 111u8, 108u8, 105u8, 99u8, 97u8, 115u8, 116u8]
}

/// The announcement that casters broadcast.
pub fn discovery_message_bytes() -> (m: Vec<u8>)
    ensures
        m@ == discovery_message(),
{
    let m = vec![112u8, 111u8, 108u8, 105u8, 99u8, 97u8, 115u8, 116u8];
    assert(m@ =~= discovery_message());
    m
}

/// Whether a received datagram is a caster's announcement. The datagram is
/// read as text, invalid sequences replaced, and compared with the message;
/// replacement characters are not in the message, so this holds exactly of
/// the message's bytes.
pub fn is_discovery_message(packet: &[u8]) -> (r: bool)
    ensures
        r == (packet@ == discovery_message()),
{
    let m = discovery_message_bytes();
    if packet.len() != m.len() {
        return false;
    }
    let n = packet.len();
    for i in 0..n
        invariant
            n == packet@.len(),
            m@ == discovery_message(),
            n == m@.len(),
            forall|j: int| 0 <= j < i ==> packet@[j] == m@[j],
    {
        if packet[i] != m[i] {
            return false;
        }
    }
    assert(packet@ =~= m@);
    true
}

/// An IPv4 address in dotted decimal notation, most significant byte first.
pub open spec fn dotted(ip: u32) -> Seq<char> {
    decimal((ip / 16777216) as nat) + "."@ + decimal(((ip / 65536) % 256) as nat) + "."@
        + decimal(((ip / 256) % 256) as nat) + "."@ + decimal((ip % 256) as nat)
}

/// The address of a caster's HLS playlist.
pub open spec fn hls_url(ip: u32) -> Seq<char> {
    "http://"@ + dotted(ip) + ":"@ + decimal(SERVER_PORT as nat) + "/hls/output.m3u8"@
}

/// The playlist URL names the caster's address: for the four bytes
/// `a.b.c.d` of an IPv4 address (most significant first, each below 256),
/// the URL is `http://a.b.c.d:3000/hls/output.m3u8` with each byte in decimal.
pub proof fn law_playlist_url_names_the_address(ip: u32, a: nat, b: nat, c: nat, d: nat)
    requires
        a < 256,
        b < 256,
        c < 256,
        d < 256,
        ip == a * 16777216 + b * 65536 + c * 256 + d,
    ensures
        hls_url(ip) == "http://"@ + decimal(a) + "."@ + decimal(b) + "."@ + decimal(c) + "."@ + decimal(d)
            + ":3000/hls/output.m3u8"@,
{
    assert(ip / 16777216 == a && (ip / 65536) % 256 == b && (ip / 256) % 256 == c && ip % 256 == d) by (nonlinear_arith)
        requires
            a < 256,
            b < 256,
            c < 256,
            d < 256,
            ip == a * 16777216 + b * 65536 + c * 256 + d,
    ;
    reveal_strlit(":");
    reveal_strlit("/hls/output.m3u8");
    reveal_strlit(":3000/hls/output.m3u8");
    assert(decimal(3) == seq![digit_char(3)]);
    assert(decimal(30) == decimal(3).push(digit_char(0)));
    assert(decimal(300) == decimal(30).push(digit_char(0)));
    assert(decimal(3000) == decimal(300).push(digit_char(0)));
    assert(":"@ + decimal(SERVER_PORT as nat) + "/hls/output.m3u8"@ =~= ":3000/hls/output.m3u8"@);
    let pre = "http://"@ + decimal(a) + "."@ + decimal(b) + "."@ + decimal(c) + "."@ + decimal(d);
    assert(hls_url(ip) =~= pre + (":"@ + decimal(SERVER_PORT as nat) + "/hls/output.m3u8"@));
}

/// The address of the HLS playlist that the caster at `ip` serves.
pub fn caster_playlist_url(ip: u32) -> (url: String)
    ensures
        url@ == hls_url(ip),
{
    let mut url = String::from_str("http://");
    let a = usize_to_string((ip / 16777216) as usize);
    url.append(a.as_str());
    url.append(".");
    let b = usize_to_string(((ip / 65536) % 256) as usize);
    url.append(b.as_str());
    url.append(".");
    let c = usize_to_string(((ip / 256) % 256) as usize);
    url.append(c.as_str());
    url.append(".");
    let d = usize_to_string((ip % 256) as usize);
    url.append(d.as_str());
    url.append(":");
    let port = usize_to_string(SERVER_PORT as usize);
    url.append(port.as_str());
    url.append("/hls/output.m3u8");
    url
}

/// A caster announced at `seen` is still listed at `now`.
pub open spec fn fresh(seen: u64, now: u64) -> bool {
    (if now > seen { now - seen } else { 0 }) < TTL_NS
}

/// The casters that are still listed at `now`.
pub open spec fn fresh_casters(m: Map<u32, u64>, now: u64) -> Map<u32, u64> {
    Map::new(|ip: u32| m.dom().contains(ip) && fresh(m[ip], now), |ip: u32| m[ip])
}

/// The casters heard of (IPv4 addresses as integers), each with the time
/// (nanoseconds on the application's clock) of its last announcement.
pub struct CasterRegistry {
    casters: HashMap<u32, u64>,
}

impl View for CasterRegistry {
    type V = Map<u32, u64>;

    closed spec fn view(&self) -> Map<u32, u64> {
        self.casters@
    }
}

impl CasterRegistry {
    pub fn new() -> (r: Self)
        ensures
            r@ == Map::<u32, u64>::empty(),
    {
        broadcast use vstd::std_specs::hash::group_hash_axioms;
        CasterRegistry { casters: HashMap::new() }
    }

    /// Handles a datagram from `sender_ip` received at `now`: an
    /// announcement (re)lists its sender; anything else is ignored.
    pub fn record_packet(&mut self, packet: &[u8], sender_ip: u32, now: u64) -> (accepted: bool)
        ensures
            accepted == (packet@ == discovery_message()),
            accepted ==> final(self)@ == old(self)@.insert(sender_ip, now),
            !accepted ==> final(self)@ == old(self)@,
    {
        broadcast use vstd::std_specs::hash::group_hash_axioms;
        if !is_discovery_message(packet) {
            return false;
        }
        self.casters.insert(sender_ip, now);
        true
    }

    /// Forgets the casters not heard of for a time-to-live and returns the
    /// others, each once.
    pub fn get_caster_ips(&mut self, now: u64) -> (ips: Vec<u32>)
        ensures
            final(self)@ == fresh_casters(old(self)@, now),
            ips@.no_duplicates(),
            forall|ip: u32| ips@.contains(ip) <==> final(self)@.dom().contains(ip),
    {
        broadcast use vstd::std_specs::hash::group_hash_axioms;
        let ghost m = self.casters@;
        let ghost all = spec_hash_map_iter(&self.casters).remaining();
        let mut kept: HashMap<u32, u64> = HashMap::new();
        let mut ips: Vec<u32> = Vec::new();
        let ghost mut count: int = 0;
        for (ip, seen) in it: self.casters.iter()
            invariant
                m == self.casters@,
                it.seq() == all,
                count == it.index(),
                ips@.no_duplicates(),
                forall|k: u32| ips@.contains(k) <==> #[trigger] kept@.contains_key(k),
                forall|k: u32| #[trigger] kept@.contains_key(k) ==> m.contains_key(k) && fresh(m[k], now) && kept@[k] == m[k],
                forall|p: int| 0 <= p < count && fresh(*all[p].1, now) ==> #[trigger] kept@.contains_key(*all[p].0),
        {
            let ip: u32 = *ip;
            let seen: u64 = *seen;
            // A map yields each key once; testing it here lets the proof see
            // that no address is listed twice.
            if now.saturating_sub(seen) < TTL_NS && !kept.contains_key(&ip) {
                let ghost before = ips@;
                kept.insert(ip, seen);
                ips.push(ip);
                proof {
                    assert forall|k: u32| ips@.contains(k) <==> #[trigger] kept@.contains_key(k) by {
                        if ips@.contains(k) && k != ip {
                            let j = choose|j: int| 0 <= j < ips@.len() && ips@[j] == k;
                            assert(before[j] == k);
                        }
                        if kept@.contains_key(k) && k != ip {
                            assert(before.contains(k));
                            let j = choose|j: int| 0 <= j < before.len() && before[j] == k;
                            assert(ips@[j] == k);
                        }
                        if k == ip {
                            assert(ips@[before.len() as int] == ip);
                        }
                    }
                }
            }
            proof {
                count = count + 1;
            }
        }
        proof {
            assert(count == all.len());
            assert forall|k: u32| #[trigger] fresh_casters(m, now).dom().contains(k) implies kept@.contains_key(k) by {
                assert(m.contains_key(k));
                assert(all.contains((&k, &m[k])));
                let p = choose|p: int| 0 <= p < all.len() && all[p] == (&k, &m[k]);
                assert(*all[p].0 == k && *all[p].1 == m[k]);
            }
            assert(kept@ =~= fresh_casters(m, now));
        }
        self.casters = kept;
        ips
    }
}

/// A caster that has just announced itself is listed.
pub proof fn law_announced_caster_is_listed(m: Map<u32, u64>, ip: u32, now: u64)
    ensures
        fresh_casters(m.insert(ip, now), now).dom().contains(ip),
{
}

/// Listing twice at the same time lists the same casters.
pub proof fn law_listing_is_idempotent(m: Map<u32, u64>, now: u64)
    ensures
        fresh_casters(fresh_casters(m, now), now) == fresh_casters(m, now),
{
    assert(fresh_casters(fresh_casters(m, now), now) =~= fresh_casters(m, now));
}

/// A caster silent for longer than the time-to-live is dropped.
pub proof fn law_silent_caster_is_dropped(m: Map<u32, u64>, ip: u32, now: u64)
    requires
        m.dom().contains(ip),
        now >= m[ip] + TTL_NS,
    ensures
        !fresh_casters(m, now).dom().contains(ip),
{
}

} // verus!
