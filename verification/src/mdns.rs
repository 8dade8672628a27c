//! Finding Cast devices in the answers to an mDNS query.
//!
//! A Cast device announces itself with a PTR record for the service name that
//! points to its service host, a TXT record for that host with `key=value`
//! entries (`fn` its friendly name, `rs` the running app, `id` its id), an SRV
//! record for that host with the port and target host, and an A record for the
//! target host with its IPv4 address. Sending the query and receiving the answers
//! happens outside this module.

use crate::text::spec_decimal;
use vstd::prelude::*;
use vstd::string::*;

verus! {

pub const SERVICE_NAME: &'static str = "_googlecast._tcp.local";

/// The kind of a DNS record, with the data this library reads.
#[derive(Clone, Debug)]
pub enum RecordKind {
    /// An IPv4 address.
    A([u8; 4]),
    /// A pointer to another name.
    PTR(String),
    /// A service location.
    SRV { priority: u16, weight: u16, port: u16, target: String },
    /// Text entries.
    TXT(Vec<String>),
    /// Any other kind of record.
    Other,
}

/// A DNS record of an mDNS answer.
#[derive(Clone, Debug)]
pub struct Record {
    pub name: String,
    pub kind: RecordKind,
}

/// An mDNS response.
#[derive(Clone, Debug)]
pub struct Response {
    pub answers: Vec<Record>,
    pub nameservers: Vec<Record>,
    pub additional: Vec<Record>,
}

/// A Cast device found in an mDNS response.
#[derive(Clone, Debug)]
pub struct Client {
    /// The device's IPv4 address.
    pub ip: [u8; 4],
    pub port: u16,
    pub service_host: String,
    pub display_name: String,
    pub app_name: Option<String>,
    pub uuid: Option<String>,
}

/// The kinds of record the device search reads.
#[derive(Clone, Copy, Debug, PartialEq, Eq, PartialOrd, Ord, Structural)]
pub enum RecordKindVariant {
    A,
    PTR,
    SRV,
    TXT,
}

pub enum RecordKindView {
    A(Seq<u8>),
    Ptr(Seq<char>),
    Srv { port: u16, target: Seq<char> },
    Txt(Seq<Seq<char>>),
    Other,
}

pub struct RecordView {
    pub name: Seq<char>,
    pub kind: RecordKindView,
}

#[verifier::ext_equal]
pub struct ClientView {
    pub ip: Seq<u8>,
    pub port: u16,
    pub service_host: Seq<char>,
    pub display_name: Seq<char>,
    pub app_name: Option<Seq<char>>,
    pub uuid: Option<Seq<char>>,
}

pub open spec fn spec_texts(v: Seq<String>) -> Seq<Seq<char>> {
    v.map_values(|s: String| s@)
}

pub open spec fn spec_opt_text(o: Option<String>) -> Option<Seq<char>> {
    match o {
        Some(s) => Some(s@),
        None => None,
    }
}

impl View for RecordKind {
    type V = RecordKindView;

    open spec fn view(&self) -> RecordKindView {
        match self {
            RecordKind::A(ip) => RecordKindView::A(ip@),
            RecordKind::PTR(h) => RecordKindView::Ptr(h@),
            RecordKind::SRV { port, target, .. } => RecordKindView::Srv { port: *port, target: target@ },
            RecordKind::TXT(entries) => RecordKindView::Txt(spec_texts(entries@)),
            RecordKind::Other => RecordKindView::Other,
        }
    }
}

impl View for Record {
    type V = RecordView;

    open spec fn view(&self) -> RecordView {
        RecordView { name: self.name@, kind: self.kind@ }
    }
}

impl View for Client {
    type V = ClientView;

    open spec fn view(&self) -> ClientView {
        ClientView {
            ip: self.ip@,
            port: self.port,
            service_host: self.service_host@,
            display_name: self.display_name@,
            app_name: spec_opt_text(self.app_name),
            uuid: spec_opt_text(self.uuid),
        }
    }
}

/// The variant of a record kind the search reads, if it reads it.
pub open spec fn spec_variant(k: RecordKindView) -> Option<RecordKindVariant> {
    match k {
        RecordKindView::A(_) => Some(RecordKindVariant::A),
        RecordKindView::Ptr(_) => Some(RecordKindVariant::PTR),
        RecordKindView::Srv { .. } => Some(RecordKindVariant::SRV),
        RecordKindView::Txt(_) => Some(RecordKindVariant::TXT),
        RecordKindView::Other => None,
    }
}

impl RecordKindVariant {
    pub fn from_kind(rk: &RecordKind) -> (r: Option<RecordKindVariant>)
        ensures
            r == spec_variant(rk@),
    {
        match rk {
            RecordKind::A(_) => Some(RecordKindVariant::A),
            RecordKind::PTR(_) => Some(RecordKindVariant::PTR),
            RecordKind::SRV { .. } => Some(RecordKindVariant::SRV),
            RecordKind::TXT(_) => Some(RecordKindVariant::TXT),
            RecordKind::Other => None,
        }
    }
}

/// The records the search reads: the answers, then the additional records.
pub open spec fn spec_records(resp: Response) -> Seq<RecordView> {
    resp.answers@.map_values(|r: Record| r@) + resp.additional@.map_values(|r: Record| r@)
}

/// The kind of the first record with this name and variant.
pub open spec fn spec_first_with(recs: Seq<RecordView>, name: Seq<char>, v: RecordKindVariant) -> Option<
    RecordKindView,
>
    decreases recs.len(),
{
    if recs.len() == 0 {
        None
    } else if recs[0].name == name && spec_variant(recs[0].kind) == Some(v) {
        Some(recs[0].kind)
    } else {
        spec_first_with(recs.skip(1), name, v)
    }
}

/// The position of the first `c` in `s`.
pub open spec fn spec_index_of_char(s: Seq<char>, c: char) -> Option<nat>
    decreases s.len(),
{
    if s.len() == 0 {
        None
    } else if s[0] == c {
        Some(0)
    } else {
        match spec_index_of_char(s.skip(1), c) {
            Some(i) => Some(i + 1),
            None => None,
        }
    }
}

/// `s` split at its first `c`: the text before it and the text after it.
pub open spec fn spec_split_once(s: Seq<char>, c: char) -> Option<(Seq<char>, Seq<char>)> {
    match spec_index_of_char(s, c) {
        Some(i) => Some((s.take(i as int), s.skip(i + 1int))),
        None => None,
    }
}

/// The value of the last `key=value` TXT entry with this key.
pub open spec fn spec_txt_value(entries: Seq<Seq<char>>, key: Seq<char>) -> Option<Seq<char>>
    decreases entries.len(),
{
    if entries.len() == 0 {
        None
    } else {
        let kv = spec_split_once(entries.last(), '=');
        if kv is Some && kv.unwrap().0 == key {
            Some(kv.unwrap().1)
        } else {
            spec_txt_value(entries.drop_last(), key)
        }
    }
}

/// An IPv4 address and a port as text: `a.b.c.d:port`.
pub open spec fn spec_socket_addr_text(ip: Seq<u8>, port: u16) -> Seq<char> {
    spec_decimal(ip[0] as nat) + seq!['.'] + spec_decimal(ip[1] as nat) + seq!['.'] + spec_decimal(
        ip[2] as nat,
    ) + seq!['.'] + spec_decimal(ip[3] as nat) + seq![':'] + spec_decimal(port as nat)
}

/// The device a service host announces, if its SRV record and the A record of
/// the SRV target are there.
pub open spec fn spec_client_for(recs: Seq<RecordView>, service_host: Seq<char>) -> Option<ClientView> {
    let entries = match spec_first_with(recs, service_host, RecordKindVariant::TXT) {
        Some(RecordKindView::Txt(e)) => e,
        _ => Seq::empty(),
    };
    let friendly_name = spec_txt_value(entries, "fn"@);
    match spec_first_with(recs, service_host, RecordKindVariant::SRV) {
        Some(RecordKindView::Srv { port, target }) => match spec_first_with(
            recs,
            target,
            RecordKindVariant::A,
        ) {
            Some(RecordKindView::A(ip)) => Some(
                ClientView {
                    ip,
                    port,
                    service_host,
                    display_name: match friendly_name {
                        Some(n) => n,
                        None => spec_socket_addr_text(ip, port),
                    },
                    app_name: spec_txt_value(entries, "rs"@),
                    uuid: spec_txt_value(entries, "id"@),
                },
            ),
            _ => None,
        },
        _ => None,
    }
}

/// Record `i` is the first record with this name and kind.
pub open spec fn spec_is_first_with(recs: Seq<RecordView>, name: Seq<char>, v: RecordKindVariant, i: int) -> bool {
    &&& 0 <= i < recs.len()
    &&& recs[i].name == name
    &&& spec_variant(recs[i].kind) == Some(v)
    &&& forall|k: int|
        0 <= k < i ==> !(#[trigger] recs[k].name == name && spec_variant(recs[k].kind) == Some(v))
}

proof fn lemma_first_with_at(recs: Seq<RecordView>, name: Seq<char>, v: RecordKindVariant, i: int)
    requires
        spec_is_first_with(recs, name, v, i),
    ensures
        spec_first_with(recs, name, v) == Some(recs[i].kind),
    decreases recs.len(),
{
    if i > 0 {
        let rest = recs.skip(1);
        assert(!(recs[0].name == name && spec_variant(recs[0].kind) == Some(v)));
        assert forall|k: int| 0 <= k < i - 1 implies !(#[trigger] rest[k].name == name
            && spec_variant(rest[k].kind) == Some(v)) by {
            assert(rest[k] == recs[k + 1]);
        }
        assert(rest[i - 1] == recs[i]);
        lemma_first_with_at(rest, name, v, i - 1);
    }
}

proof fn lemma_first_with_none(recs: Seq<RecordView>, name: Seq<char>, v: RecordKindVariant)
    requires
        forall|k: int|
            0 <= k < recs.len() ==> !(#[trigger] recs[k].name == name && spec_variant(recs[k].kind)
                == Some(v)),
    ensures
        spec_first_with(recs, name, v) is None,
    decreases recs.len(),
{
    if recs.len() > 0 {
        let rest = recs.skip(1);
        assert(!(recs[0].name == name && spec_variant(recs[0].kind) == Some(v)));
        assert forall|k: int| 0 <= k < rest.len() implies !(#[trigger] rest[k].name == name
            && spec_variant(rest[k].kind) == Some(v)) by {
            assert(rest[k] == recs[k + 1]);
        }
        lemma_first_with_none(rest, name, v);
    }
}

/// The device a service host announces takes its port and target from the
/// first SRV record for that host, and its address from the first A record for
/// that target. Its display name is the `fn` TXT entry when there is one, and
/// otherwise the address and that same port as text; its app name is the `rs`
/// entry and its id the `id` entry.
pub proof fn lemma_client_from_records(recs: Seq<RecordView>, host: Seq<char>, i: int, j: int)
    requires
        spec_is_first_with(recs, host, RecordKindVariant::SRV, i),
        spec_is_first_with(recs, recs[i].kind->Srv_target, RecordKindVariant::A, j),
    ensures
        spec_client_for(recs, host) is Some,
        spec_client_for(recs, host).unwrap().port == recs[i].kind->Srv_port,
        spec_client_for(recs, host).unwrap().ip == recs[j].kind->A_0,
        spec_client_for(recs, host).unwrap().service_host == host,
        spec_txt_value(
            match spec_first_with(recs, host, RecordKindVariant::TXT) {
                Some(RecordKindView::Txt(e)) => e,
                _ => Seq::empty(),
            },
            "fn"@,
        ) is None ==> spec_client_for(recs, host).unwrap().display_name == spec_socket_addr_text(
            recs[j].kind->A_0,
            recs[i].kind->Srv_port,
        ),
        spec_txt_value(
            match spec_first_with(recs, host, RecordKindVariant::TXT) {
                Some(RecordKindView::Txt(e)) => e,
                _ => Seq::empty(),
            },
            "fn"@,
        ) matches Some(n) ==> spec_client_for(recs, host).unwrap().display_name == n,
        spec_client_for(recs, host).unwrap().app_name == spec_txt_value(
            match spec_first_with(recs, host, RecordKindVariant::TXT) {
                Some(RecordKindView::Txt(e)) => e,
                _ => Seq::empty(),
            },
            "rs"@,
        ),
        spec_client_for(recs, host).unwrap().uuid == spec_txt_value(
            match spec_first_with(recs, host, RecordKindVariant::TXT) {
                Some(RecordKindView::Txt(e)) => e,
                _ => Seq::empty(),
            },
            "id"@,
        ),
{
    lemma_first_with_at(recs, host, RecordKindVariant::SRV, i);
    lemma_first_with_at(recs, recs[i].kind->Srv_target, RecordKindVariant::A, j);
}

/// A service host with no SRV record, or whose SRV target has no A record,
/// announces no device.
pub proof fn lemma_no_client_without_records(recs: Seq<RecordView>, host: Seq<char>)
    ensures
        (forall|k: int|
            0 <= k < recs.len() ==> !(#[trigger] recs[k].name == host && recs[k].kind is Srv))
            ==> spec_client_for(recs, host) is None,
        forall|i: int|
            #![trigger spec_is_first_with(recs, host, RecordKindVariant::SRV, i)]
            spec_is_first_with(recs, host, RecordKindVariant::SRV, i) && (forall|k: int|
                0 <= k < recs.len() ==> !(#[trigger] recs[k].name == recs[i].kind->Srv_target
                    && recs[k].kind is A)) ==> spec_client_for(recs, host) is None,
{
    if forall|k: int|
        0 <= k < recs.len() ==> !(#[trigger] recs[k].name == host && recs[k].kind is Srv) {
        lemma_first_with_none(recs, host, RecordKindVariant::SRV);
    }
    assert forall|i: int|
        #![trigger spec_is_first_with(recs, host, RecordKindVariant::SRV, i)]
        spec_is_first_with(recs, host, RecordKindVariant::SRV, i) && (forall|k: int|
            0 <= k < recs.len() ==> !(#[trigger] recs[k].name == recs[i].kind->Srv_target
                && recs[k].kind is A)) implies spec_client_for(recs, host) is None by {
        lemma_first_with_at(recs, host, RecordKindVariant::SRV, i);
        lemma_first_with_none(recs, recs[i].kind->Srv_target, RecordKindVariant::A);
    }
}

proof fn lemma_index_of_char_at(k: Seq<char>, c: char, rest: Seq<char>)
    requires
        forall|x: int| 0 <= x < k.len() ==> k[x] != c,
    ensures
        spec_index_of_char(k + seq![c] + rest, c) == Some(k.len()),
    decreases k.len(),
{
    let s = k + seq![c] + rest;
    if k.len() > 0 {
        assert(s.skip(1) =~= k.skip(1) + seq![c] + rest);
        lemma_index_of_char_at(k.skip(1), c, rest);
    } else {
        assert(s[0] == c);
    }
}

/// A `key=value` entry, with no `=` in the key, splits at its first `=` into
/// that key and that value.
pub proof fn lemma_split_entry(key: Seq<char>, value: Seq<char>)
    requires
        forall|x: int| 0 <= x < key.len() ==> key[x] != '=',
    ensures
        spec_split_once(key + seq!['='] + value, '=') == Some((key, value)),
{
    let s = key + seq!['='] + value;
    lemma_index_of_char_at(key, '=', value);
    assert(s.take(key.len() as int) =~= key);
    assert(s.skip(key.len() + 1int) =~= value);
}

/// The value of a TXT key is that of the last entry `key=value` for it: an
/// entry `i` written as the key, `=` and a value gives that value when no later
/// entry has that key; with no entry for the key there is no value.
pub proof fn lemma_txt_value_of_entries(entries: Seq<Seq<char>>, key: Seq<char>, value: Seq<char>, i: int)
    ensures
        (0 <= i < entries.len() && (forall|x: int| 0 <= x < key.len() ==> key[x] != '=')
            && entries[i] == key + seq!['='] + value && (forall|j: int|
            i < j < entries.len() ==> !(#[trigger] spec_split_once(entries[j], '=') matches Some(
                kv,
            ) && kv.0 == key))) ==> spec_txt_value(entries, key) == Some(value),
        (forall|j: int|
            0 <= j < entries.len() ==> !(#[trigger] spec_split_once(entries[j], '=') matches Some(kv)
                && kv.0 == key)) ==> spec_txt_value(entries, key) is None,
    decreases entries.len(),
{
    if entries.len() > 0 {
        let rest = entries.drop_last();
        let n = entries.len() - 1;
        if 0 <= i < entries.len() && (forall|x: int| 0 <= x < key.len() ==> key[x] != '=')
            && entries[i] == key + seq!['='] + value && (forall|j: int|
            i < j < entries.len() ==> !(#[trigger] spec_split_once(entries[j], '=') matches Some(kv)
                && kv.0 == key)) {
            lemma_split_entry(key, value);
            if i < n {
                assert(!(spec_split_once(entries[n], '=') matches Some(kv) && kv.0 == key));
                assert forall|j: int|
                    i < j < rest.len() implies !(#[trigger] spec_split_once(rest[j], '=') matches Some(kv)
                    && kv.0 == key) by {
                    assert(rest[j] == entries[j]);
                    assert(!(spec_split_once(entries[j], '=') matches Some(kv) && kv.0 == key));
                }
                assert(rest[i] == entries[i]);
                lemma_txt_value_of_entries(rest, key, value, i);
            }
        }
        if forall|j: int|
            0 <= j < entries.len() ==> !(#[trigger] spec_split_once(entries[j], '=') matches Some(kv)
                && kv.0 == key) {
            assert(!(spec_split_once(entries[n], '=') matches Some(kv) && kv.0 == key));
            assert forall|j: int|
                0 <= j < rest.len() implies !(#[trigger] spec_split_once(rest[j], '=') matches Some(kv)
                && kv.0 == key) by {
                assert(rest[j] == entries[j]);
                assert(!(spec_split_once(entries[j], '=') matches Some(kv) && kv.0 == key));
            }
            lemma_txt_value_of_entries(rest, key, value, i);
        }
    }
}

/// The devices announced by the PTR records for the service name among the
/// first `n` records, in the order of those records.
pub open spec fn spec_clients_upto(recs: Seq<RecordView>, n: int) -> Seq<ClientView>
    decreases n,
{
    if n <= 0 {
        Seq::empty()
    } else {
        let prev = spec_clients_upto(recs, n - 1);
        let r = recs[n - 1];
        if r.name == SERVICE_NAME@ && r.kind is Ptr {
            match spec_client_for(recs, r.kind->Ptr_0) {
                Some(c) => prev.push(c),
                None => prev,
            }
        } else {
            prev
        }
    }
}

/// Reading one more record adds, at the end, the device that record announces
/// when it is a PTR record for `_googlecast._tcp.local` whose service host
/// announces one; any other record adds nothing.
pub proof fn lemma_clients_step(recs: Seq<RecordView>, n: int)
    requires
        0 <= n < recs.len(),
    ensures
        spec_clients_upto(recs, 0) == Seq::<ClientView>::empty(),
        recs[n].name == "_googlecast._tcp.local"@ && recs[n].kind is Ptr && spec_client_for(
            recs,
            recs[n].kind->Ptr_0,
        ) is Some ==> spec_clients_upto(recs, n + 1) == spec_clients_upto(recs, n).push(
            spec_client_for(recs, recs[n].kind->Ptr_0).unwrap(),
        ),
        !(recs[n].name == "_googlecast._tcp.local"@ && recs[n].kind is Ptr && spec_client_for(
            recs,
            recs[n].kind->Ptr_0,
        ) is Some) ==> spec_clients_upto(recs, n + 1) == spec_clients_upto(recs, n),
{
}

/// Each device found among the first `n` records is the one that some PTR
/// record for `_googlecast._tcp.local` among them announces, and there are at
/// most `n` of them.
pub proof fn lemma_clients_announced(recs: Seq<RecordView>, n: int)
    requires
        0 <= n <= recs.len(),
    ensures
        spec_clients_upto(recs, n).len() <= n,
        forall|x: int|
            #![trigger spec_clients_upto(recs, n)[x]]
            0 <= x < spec_clients_upto(recs, n).len() ==> exists|k: int|
                #![trigger recs[k]]
                0 <= k < n && recs[k].name == "_googlecast._tcp.local"@ && recs[k].kind is Ptr
                    && spec_client_for(recs, recs[k].kind->Ptr_0) == Some(
                    spec_clients_upto(recs, n)[x],
                ),
    decreases n,
{
    if n > 0 {
        lemma_clients_announced(recs, n - 1);
        let prev = spec_clients_upto(recs, n - 1);
        let cur = spec_clients_upto(recs, n);
        let r = recs[n - 1];
        let added = r.name == SERVICE_NAME@ && r.kind is Ptr && spec_client_for(recs, r.kind->Ptr_0) is Some;
        if added {
            assert(cur == prev.push(spec_client_for(recs, r.kind->Ptr_0).unwrap()));
        } else {
            assert(cur == prev);
        }
        assert forall|x: int| #![trigger cur[x]] 0 <= x < cur.len() implies exists|k: int|
            #![trigger recs[k]]
            0 <= k < n && recs[k].name == "_googlecast._tcp.local"@ && recs[k].kind is Ptr
                && spec_client_for(recs, recs[k].kind->Ptr_0) == Some(cur[x]) by {
            if x < prev.len() {
                assert(cur[x] == prev[x]);
                let k = choose|k: int|
                    #![trigger recs[k]]
                    0 <= k < n - 1 && recs[k].name == "_googlecast._tcp.local"@ && recs[k].kind is Ptr
                        && spec_client_for(recs, recs[k].kind->Ptr_0) == Some(prev[x]);
                assert(0 <= k < n);
            } else {
                assert(added);
                assert(cur[x] == spec_client_for(recs, r.kind->Ptr_0).unwrap());
                assert(recs[n - 1] == r);
            }
        }
    }
}

/// `str::split_once` with a `char` separator: the text before and the text
/// after the first `sep`, if there is one.
#[verifier::external_body]
fn split_once(s: &str, sep: char) -> (r: Option<(String, String)>)
    ensures
        spec_split_once(s@, sep) is None ==> r is None,
        spec_split_once(s@, sep) is Some ==> r is Some && r.unwrap().0@ == spec_split_once(
            s@,
            sep,
        ).unwrap().0 && r.unwrap().1@ == spec_split_once(s@, sep).unwrap().1,
{
    s.split_once(sep).map(|(k, v)| (k.to_string(), v.to_string()))
}

/// `format!` of an IPv4 address and a port as `Display` writes them: the four
/// bytes in decimal separated by dots, a colon, then the port in decimal.
#[verifier::external_body]
fn socket_addr_text(ip: &[u8; 4], port: u16) -> (r: String)
    ensures
        r@ == spec_socket_addr_text(ip@, port),
{
    format!("{}.{}.{}.{}:{}", ip[0], ip[1], ip[2], ip[3], port)
}

/// The records the search reads, in order: the answers, then the additional records.
fn all_records(resp: &Response) -> (r: Vec<&Record>)
    ensures
        r@.len() == spec_records(*resp).len(),
        forall|i: int| 0 <= i < r@.len() ==> (#[trigger] r@[i])@ == spec_records(*resp)[i],
{
    let ghost recs = spec_records(*resp);
    let mut all: Vec<&Record> = Vec::new();
    let mut i: usize = 0;
    while i < resp.answers.len()
        invariant
            recs == spec_records(*resp),
            i <= resp.answers@.len(),
            all@.len() == i,
            forall|k: int| 0 <= k < all@.len() ==> (#[trigger] all@[k])@ == recs[k],
        decreases resp.answers@.len() - i,
    {
        all.push(&resp.answers[i]);
        i = i + 1;
    }
    let mut j: usize = 0;
    while j < resp.additional.len()
        invariant
            recs == spec_records(*resp),
            j <= resp.additional@.len(),
            all@.len() == resp.answers@.len() + j,
            forall|k: int| 0 <= k < all@.len() ==> (#[trigger] all@[k])@ == recs[k],
        decreases resp.additional@.len() - j,
    {
        all.push(&resp.additional[j]);
        j = j + 1;
    }
    all
}

/// The position of the first record with this name and variant.
fn first_with(all: &Vec<&Record>, name: &String, v: RecordKindVariant) -> (r: Option<usize>)
    ensures
        match spec_first_with(all@.map_values(|r: &Record| r@), name@, v) {
            None => r is None,
            Some(k) => r is Some && r.unwrap() < all@.len() && all@[r.unwrap() as int]@.kind == k,
        },
{
    let ghost recs = all@.map_values(|r: &Record| r@);
    let n = all.len();
    let mut i: usize = 0;
    proof {
        assert(recs.skip(0) =~= recs);
    }
    while i < n
        invariant
            n == recs.len(),
            recs == all@.map_values(|r: &Record| r@),
            i <= n,
            spec_first_with(recs, name@, v) == spec_first_with(recs.skip(i as int), name@, v),
        decreases n - i,
    {
        let rec = all[i];
        proof {
            assert(recs.skip(i as int)[0] == recs[i as int]);
            assert(recs.skip(i as int).skip(1) =~= recs.skip(i + 1));
        }
        let same_variant = match RecordKindVariant::from_kind(&rec.kind) {
            Some(rv) => rv == v,
            None => false,
        };
        if rec.name == *name && same_variant {
            return Some(i);
        }
        i = i + 1;
    }
    proof {
        assert(recs.skip(i as int).len() == 0);
    }
    None
}

/// The values of the `fn`, `rs` and `id` TXT entries.
fn txt_values(entries: &Vec<String>) -> (r: (Option<String>, Option<String>, Option<String>))
    ensures
        spec_opt_text(r.0) == spec_txt_value(spec_texts(entries@), "fn"@),
        spec_opt_text(r.1) == spec_txt_value(spec_texts(entries@), "rs"@),
        spec_opt_text(r.2) == spec_txt_value(spec_texts(entries@), "id"@),
{
    proof {
        reveal_strlit("fn");
        reveal_strlit("rs");
        reveal_strlit("id");
        assert("fn"@[0] != "rs"@[0] && "fn"@[0] != "id"@[0] && "rs"@[0] != "id"@[0]);
        assert("fn"@ != "rs"@ && "fn"@ != "id"@ && "rs"@ != "id"@);
    }
    let ghost texts = spec_texts(entries@);
    let key_fn = String::from_str("fn");
    let key_rs = String::from_str("rs");
    let key_id = String::from_str("id");
    let mut friendly_name: Option<String> = None;
    let mut app_name: Option<String> = None;
    let mut uuid: Option<String> = None;
    let mut i: usize = 0;
    proof {
        assert(texts.take(0).len() == 0);
    }
    while i < entries.len()
        invariant
            i <= entries@.len(),
            texts == spec_texts(entries@),
            key_fn@ == "fn"@,
            key_rs@ == "rs"@,
            key_id@ == "id"@,
            "fn"@ != "rs"@ && "fn"@ != "id"@ && "rs"@ != "id"@,
            spec_opt_text(friendly_name) == spec_txt_value(texts.take(i as int), "fn"@),
            spec_opt_text(app_name) == spec_txt_value(texts.take(i as int), "rs"@),
            spec_opt_text(uuid) == spec_txt_value(texts.take(i as int), "id"@),
        decreases entries@.len() - i,
    {
        let entry = &entries[i];
        proof {
            assert(texts.take(i + 1).last() == entry@);
            assert(texts.take(i + 1).drop_last() =~= texts.take(i as int));
        }
        match split_once(entry.as_str(), '=') {
            Some((k, v)) => {
                if k == key_fn {
                    friendly_name = Some(v);
                } else if k == key_rs {
                    app_name = Some(v);
                } else if k == key_id {
                    uuid = Some(v);
                }
            },
            None => {},
        }
        i = i + 1;
    }
    proof {
        assert(texts.take(entries@.len() as int) =~= texts);
    }
    (friendly_name, app_name, uuid)
}

/// The device a service host announces, if its SRV record and the A record of
/// the SRV target are in the response.
fn client_for(all: &Vec<&Record>, service_host: &String) -> (r: Option<Client>)
    ensures
        match spec_client_for(all@.map_values(|r: &Record| r@), service_host@) {
            None => r is None,
            Some(c) => r is Some && r.unwrap()@ == c,
        },
{
    let ghost recs = all@.map_values(|r: &Record| r@);
    let (friendly_name, app_name, uuid) = match first_with(all, service_host, RecordKindVariant::TXT) {
        Some(i) => match &all[i].kind {
            RecordKind::TXT(entries) => txt_values(entries),
            _ => (None, None, None),
        },
        None => {
            proof {
                assert(spec_texts(Seq::<String>::empty()) =~= Seq::<Seq<char>>::empty());
            }
            txt_values(&Vec::new())
        },
    };
    let srv = match first_with(all, service_host, RecordKindVariant::SRV) {
        Some(i) => i,
        None => {
            return None;
        },
    };
    let (port, target) = match &all[srv].kind {
        RecordKind::SRV { port, target, .. } => (*port, target),
        _ => {
            return None;
        },
    };
    let a = match first_with(all, target, RecordKindVariant::A) {
        Some(i) => i,
        None => {
            return None;
        },
    };
    let ip = match &all[a].kind {
        RecordKind::A(ip) => *ip,
        _ => {
            return None;
        },
    };
    let display_name = match friendly_name {
        Some(n) => n,
        None => socket_addr_text(&ip, port),
    };
    let c = Client { ip, port, service_host: service_host.clone(), display_name, app_name, uuid };
    proof {
        assert(c@ =~= spec_client_for(recs, service_host@).unwrap());
    }
    Some(c)
}

/// The Cast devices an mDNS response announces: one for each PTR record for
/// the service name whose service host has an SRV record whose target has an A
/// record, in the order of the PTR records among the answers and then the
/// additional records. A TXT record of the service host gives the display name
/// (else the address and port as text), the app name and the id.
pub fn clients_from_mdns_response(resp: &Response) -> (r: Result<Vec<Client>, anyhow::Error>)
    ensures
        r is Ok,
        r matches Ok(cs) && cs@.map_values(|c: Client| c@) == spec_clients_upto(
            spec_records(*resp),
            spec_records(*resp).len() as int,
        ),
{
    let all = all_records(resp);
    let ghost recs = spec_records(*resp);
    proof {
        assert(all@.map_values(|r: &Record| r@) =~= recs);
    }
    let service_name = String::from_str(SERVICE_NAME);
    let n = all.len();
    let mut clients: Vec<Client> = Vec::new();
    let mut i: usize = 0;
    while i < n
        invariant
            n == recs.len(),
            recs == spec_records(*resp),
            recs == all@.map_values(|r: &Record| r@),
            service_name@ == SERVICE_NAME@,
            i <= n,
            clients@.map_values(|c: Client| c@) == spec_clients_upto(recs, i as int),
        decreases n - i,
    {
        let rec = all[i];
        let ghost prev = clients@.map_values(|c: Client| c@);
        if rec.name == service_name {
            if let RecordKind::PTR(service_host) = &rec.kind {
                if let Some(c) = client_for(&all, service_host) {
                    clients.push(c);
                    proof {
                        assert(clients@.map_values(|c: Client| c@) =~= prev.push(c@));
                    }
                }
            }
        }
        i = i + 1;
    }
    Ok(clients)
}

/// Which device to pick among those discovered.
#[derive(Clone, Debug)]
pub enum Target {
    /// The first device found.
    First,
    /// The device with this display name.
    DisplayName(String),
    /// The device with this id.
    Id(String),
}

/// Whether `target` picks out the device `c`.
pub open spec fn spec_target_matches(target: Target, c: ClientView) -> bool {
    match target {
        Target::First => true,
        Target::DisplayName(dn) => c.display_name == dn@,
        Target::Id(id) => c.uuid == Some(id@),
    }
}

/// Asking for the first device picks any device; asking for a display name
/// picks the devices with exactly that display name; asking for an id picks the
/// devices whose `id` TXT entry is exactly that id, and never one without an id.
pub proof fn lemma_target_picks(target: Target, c: ClientView)
    ensures
        target is First ==> spec_target_matches(target, c),
        target matches Target::DisplayName(n) ==> (spec_target_matches(target, c) <==> c.display_name
            == n@),
        target matches Target::Id(id) ==> (spec_target_matches(target, c) <==> (c.uuid is Some
            && c.uuid.unwrap() == id@)),
{
}

/// The first of `clients` that `target` picks out, if any does.
pub fn find_target(clients: Vec<Client>, target: &Target) -> (r: Option<Client>)
    ensures
        r is None <==> forall|i: int|
            0 <= i < clients@.len() ==> !spec_target_matches(*target, (#[trigger] clients@[i])@),
        r is Some ==> exists|i: int|
            0 <= i < clients@.len() && r.unwrap()@ == (#[trigger] clients@[i])@
                && spec_target_matches(*target, clients@[i]@) && forall|j: int|
                0 <= j < i ==> !spec_target_matches(*target, (#[trigger] clients@[j])@),
{
    let mut i: usize = 0;
    let mut found: Option<usize> = None;
    while i < clients.len()
        invariant_except_break
            found is None,
        invariant
            i <= clients@.len(),
            forall|j: int| 0 <= j < i ==> !spec_target_matches(*target, (#[trigger] clients@[j])@),
        ensures
            found matches Some(k) ==> k < clients@.len() && spec_target_matches(
                *target,
                clients@[k as int]@,
            ) && forall|j: int| 0 <= j < k ==> !spec_target_matches(*target, (#[trigger] clients@[j])@),
            found is None ==> forall|j: int|
                0 <= j < clients@.len() ==> !spec_target_matches(*target, (#[trigger] clients@[j])@),
        decreases clients@.len() - i,
    {
        let c = &clients[i];
        let is_match = match target {
            Target::First => true,
            Target::DisplayName(dn) => c.display_name == *dn,
            Target::Id(id) => match &c.uuid {
                Some(u) => *u == *id,
                None => false,
            },
        };
        if is_match {
            found = Some(i);
            break;
        }
        i = i + 1;
    }
    match found {
        Some(k) => {
            let ghost all = clients@;
            let mut rest = clients;
            let c = rest.remove(k);
            proof {
                assert(c == all[k as int]);
            }
            Some(c)
        },
        None => None,
    }
}

} // verus!
