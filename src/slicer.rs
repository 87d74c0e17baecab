//! The routing entry ("slice") that this proxy owns for one service, and the
//! label patches that attach it to the service and detach it again.
//!
//! The entry carries the proxy's own address. While it bears the service's
//! selector label, the service routes to the proxy; without the label, the
//! service routes to its own pods only. The entry is found again after a
//! restart by its `managed-by` annotation, so it is made once and reused.
use vstd::prelude::*;
use json_patch::jsonptr::PointerBuf;
use json_patch::{AddOperation, Patch, PatchOperation, RemoveOperation};

verus! {

/// `json_patch::Patch`, carried through opaque.
#[verifier::external_type_specification]
#[verifier::external_body]
pub struct ExPatch(Patch);

/// `json_patch::PatchOperation`, carried through opaque.
#[verifier::external_type_specification]
#[verifier::external_body]
pub struct ExPatchOperation(PatchOperation);

/// The operations of a JSON patch document, in order: whether each is an
/// `add` (else a `remove`), its path, and the string it adds (empty for a
/// `remove`).
pub uninterp spec fn patch_ops(p: Patch) -> Seq<(bool, Seq<char>, Seq<char>)>;

/// The label that binds a routing entry to a service.
pub const SERVICE_LABEL: &'static str = "kubernetes.io/service-name";

/// The annotation that names the deployment whose entry this is.
pub const MANAGED_BY: &'static str = "sero/target-deployment";

/// The prefix of the names the orchestrator generates for new entries.
pub const NAME_PREFIX: &'static str = "sero-";

/// The address type of the entry.
pub const ADDRESS_TYPE: &'static str = "IPv4";

/// The name of the entry's single port.
pub const PORT_NAME: &'static str = "http";

/// The protocol of the entry's single port.
pub const PROTOCOL: &'static str = "TCP";

/// The JSON pointer to an object's labels.
pub const LABELS_POINTER: &'static str = "/metadata/labels/";

/// A routing entry as a listing returns it: its name and its annotations.
#[derive(Debug)]
pub struct ListedSlice {
    pub name: Option<String>,
    pub labels: Vec<(String, String)>,
    pub annotations: Vec<(String, String)>,
}

/// A routing entry to be created.
#[derive(Debug)]
pub struct SliceDraft {
    pub generate_name: String,
    pub address_type: String,
    pub addresses: Vec<String>,
    pub port_name: String,
    pub protocol: String,
    pub port: i32,
    pub labels: Vec<(String, String)>,
    pub annotations: Vec<(String, String)>,
}

/// How to come by the routing entry.
#[derive(Debug)]
pub enum SlicePlan {
    /// Reuse the entry of this name.
    Reuse(String),
    /// Create this entry.
    Create(SliceDraft),
}

/// `d` is the entry drafted for `service` and `deployment`: the proxy's
/// `address` as its one endpoint, one TCP port `port`, the selector label and
/// the `managed-by` annotation.
pub open spec fn is_draft_of(
    d: SliceDraft,
    service: Seq<char>,
    deployment: Seq<char>,
    address: String,
    port: i32,
) -> bool {
    &&& d.generate_name@ == NAME_PREFIX@
    &&& d.address_type@ == ADDRESS_TYPE@
    &&& d.addresses@.len() == 1
    &&& d.addresses@[0] == address
    &&& d.port_name@ == PORT_NAME@
    &&& d.protocol@ == PROTOCOL@
    &&& d.port == port
    &&& d.labels@.len() == 1
    &&& d.labels@[0].0@ == SERVICE_LABEL@
    &&& d.labels@[0].1@ == service
    &&& d.annotations@.len() == 1
    &&& d.annotations@[0].0@ == MANAGED_BY@
    &&& d.annotations@[0].1@ == deployment
}

/// How a label patch changes the label.
#[derive(Debug, Clone, Copy, PartialEq, Eq, Structural)]
pub enum LabelOp {
    /// Set the label to the value.
    Add,
    /// Take the label away.
    Remove,
}

/// A JSON patch of one operation on one label of a routing entry.
#[derive(Debug)]
pub struct LabelPatch {
    pub op: LabelOp,
    pub key: String,
    pub value: String,
}

/// The value of the first pair whose key is `key`.
pub open spec fn value_of(pairs: Seq<(String, String)>, key: Seq<char>) -> Option<
    Seq<char>,
>
    decreases pairs.len(),
{
    if pairs.len() == 0 {
        None
    } else if pairs[0].0@ == key {
        Some(pairs[0].1@)
    } else {
        value_of(pairs.drop_first(), key)
    }
}

/// The entry has a name and is annotated as the one of `deployment`.
pub open spec fn is_owned(e: ListedSlice, deployment: Seq<char>) -> bool {
    e.name is Some && value_of(e.annotations@, MANAGED_BY@) == Some(deployment)
}

/// The name of the first entry of the listing that `deployment` owns.
pub open spec fn first_owned(items: Seq<ListedSlice>, deployment: Seq<char>) -> Option<Seq<char>>
    decreases items.len(),
{
    if items.len() == 0 {
        None
    } else if is_owned(items[0], deployment) {
        Some(items[0].name.unwrap()@)
    } else {
        first_owned(items.drop_first(), deployment)
    }
}

/// A label value as a map from label keys to values shows it.
pub open spec fn label_of(labels: Map<Seq<char>, Seq<char>>, key: Seq<char>) -> Option<Seq<char>> {
    if labels.contains_key(key) {
        Some(labels[key])
    } else {
        None
    }
}

/// The labels after a label patch. Adding sets the value; removing a label
/// that is there takes it away, and a removal of a label that is not there
/// is refused and leaves the labels as they were.
pub open spec fn labels_after(
    labels: Map<Seq<char>, Seq<char>>,
    op: LabelOp,
    key: Seq<char>,
    value: Seq<char>,
) -> Map<Seq<char>, Seq<char>> {
    match op {
        LabelOp::Add => labels.insert(key, value),
        LabelOp::Remove => labels.remove(key),
    }
}

/// The service routes to the entry with these labels.
pub open spec fn routes_to_proxy(labels: Map<Seq<char>, Seq<char>>, service: Seq<char>) -> bool {
    label_of(labels, SERVICE_LABEL@) == Some(service)
}

/// One character as a JSON pointer reference token writes it.
pub open spec fn escape_char(c: char) -> Seq<char> {
    if c == '~' {
        seq!['~', '0']
    } else if c == '/' {
        seq!['~', '1']
    } else {
        seq![c]
    }
}

/// A text as a JSON pointer reference token: `~` as `~0`, `/` as `~1`.
pub open spec fn escape_token(s: Seq<char>) -> Seq<char>
    decreases s.len(),
{
    if s.len() == 0 {
        Seq::empty()
    } else {
        escape_token(s.drop_last()) + escape_char(s.last())
    }
}

/// The JSON pointer to the label `key` of an object.
pub open spec fn label_pointer(key: Seq<char>) -> Seq<char> {
    LABELS_POINTER@ + escape_token(key)
}

/// Writes `s` as a JSON pointer reference token.
pub fn escape_pointer_token(s: &str) -> (r: String)
    ensures
        r@ == escape_token(s@),
{
    let n = s.unicode_len();
    let mut r = String::new();
    let mut i: usize = 0;
    while i < n
        invariant
            n == s@.len(),
            0 <= i <= n,
            r@ == escape_token(s@.take(i as int)),
        decreases n - i,
    {
        let c = s.get_char(i);
        proof {
            assert(s@.take(i as int + 1).drop_last() =~= s@.take(i as int));
            reveal_strlit("~0");
            reveal_strlit("~1");
        }
        if c == '~' {
            r.append("~0");
        } else if c == '/' {
            r.append("~1");
        } else {
            let one = s.substring_char(i, i + 1);
            assert(one@ =~= seq![c]);
            r.append(one);
        }
        i = i + 1;
    }
    assert(s@.take(n as int) =~= s@);
    r
}

/// A JSON pointer as `jsonptr` accepts it: empty, or `/` first and every `~`
/// followed by `0` or `1`.
pub open spec fn is_valid_pointer(s: Seq<char>) -> bool {
    s.len() == 0 || (s[0] == '/' && forall|i: int|
        0 <= i < s.len() && #[trigger] s[i] == '~' ==> i + 1 < s.len() && (s[i + 1] == '0' || s[i
            + 1] == '1'))
}

/// Relies on `jsonptr::PointerBuf::parse`, which parses every valid JSON
/// pointer and refuses every other text, and on `json_patch::Patch` and
/// `PatchOperation::Add`: a document of one `add` of the string `value` at
/// `path`.
#[verifier::external_body]
fn add_patch(path: String, value: String) -> (r: Option<Patch>)
    ensures
        r is Some <==> is_valid_pointer(path@),
        r matches Some(d) ==> patch_ops(d) == seq![(true, path@, value@)],
{
    match PointerBuf::parse(path) {
        Ok(ptr) => Some(
            Patch(vec![PatchOperation::Add(AddOperation { path: ptr, value: serde_json::Value::String(value) })]),
        ),
        Err(_) => None,
    }
}

/// Relies on `jsonptr::PointerBuf::parse`, which parses every valid JSON
/// pointer and refuses every other text, and on `json_patch::Patch` and
/// `PatchOperation::Remove`: a document of one `remove` at `path`.
#[verifier::external_body]
fn remove_patch(path: String) -> (r: Option<Patch>)
    ensures
        r is Some <==> is_valid_pointer(path@),
        r matches Some(d) ==> patch_ops(d) == seq![(false, path@, Seq::<char>::empty())],
{
    match PointerBuf::parse(path) {
        Ok(ptr) => Some(Patch(vec![PatchOperation::Remove(RemoveOperation { path: ptr })])),
        Err(_) => None,
    }
}

/// Every `~` of an escaped token is followed by `0` or `1`.
pub proof fn lemma_escaped_tildes(s: Seq<char>)
    ensures
        forall|i: int|
            0 <= i < escape_token(s).len() && #[trigger] escape_token(s)[i] == '~' ==> i + 1
                < escape_token(s).len() && (escape_token(s)[i + 1] == '0' || escape_token(s)[i
                + 1] == '1'),
    decreases s.len(),
{
    if s.len() > 0 {
        lemma_escaped_tildes(s.drop_last());
        let a = escape_token(s.drop_last());
        let b = escape_char(s.last());
        let e = escape_token(s);
        assert(e == a + b);
        assert forall|i: int| 0 <= i < e.len() && #[trigger] e[i] == '~' implies i + 1 < e.len()
            && (e[i + 1] == '0' || e[i + 1] == '1') by {
            if i < a.len() {
                assert(e[i] == a[i]);
                assert(e[i + 1] == a[i + 1]);
            } else {
                assert(e[i] == b[i - a.len()]);
                assert(e[i + 1] == b[i + 1 - a.len()]);
            }
        }
    }
}

/// The path of every label patch is a valid JSON pointer.
pub proof fn lemma_label_pointer_valid(key: Seq<char>)
    ensures
        is_valid_pointer(label_pointer(key)),
{
    reveal_strlit("/metadata/labels/");
    lemma_escaped_tildes(key);
    let p = LABELS_POINTER@;
    let e = escape_token(key);
    let l = label_pointer(key);
    assert(l == p + e);
    assert(l[0] == p[0]);
    assert forall|i: int| 0 <= i < l.len() && #[trigger] l[i] == '~' implies i + 1 < l.len() && (l[i
        + 1] == '0' || l[i + 1] == '1') by {
        if i < p.len() {
            assert(l[i] == p[i]);
        } else {
            assert(l[i] == e[i - p.len()]);
            assert(l[i + 1] == e[i + 1 - p.len()]);
        }
    }
}

impl LabelPatch {
    /// The JSON pointer that the patch operates on.
    pub fn path(&self) -> (r: String)
        ensures
            r@ == label_pointer(self.key@),
    {
        let mut r = String::from_str(LABELS_POINTER);
        let token = escape_pointer_token(self.key.as_str());
        r.append(token.as_str());
        r
    }

    /// The patch as a JSON patch document of one operation: an `add` of the
    /// value or a `remove`, at the label's pointer. That pointer is always
    /// valid, so a document is always made.
    pub fn json_patch(&self) -> (r: Option<Patch>)
        ensures
            r is Some,
            r matches Some(d) ==> patch_ops(d) == seq![
                (
                    self.op == LabelOp::Add,
                    label_pointer(self.key@),
                    if self.op == LabelOp::Add {
                        self.value@
                    } else {
                        Seq::<char>::empty()
                    },
                ),
            ],
    {
        let path = self.path();
        proof {
            lemma_label_pointer_valid(self.key@);
        }
        match self.op {
            LabelOp::Add => add_patch(path, self.value.clone()),
            LabelOp::Remove => remove_patch(path),
        }
    }
}

/// The routing entry of one service and one deployment.
#[derive(Debug)]
pub struct Slice {
    svc_name: String,
    deploy_name: String,
}

impl Slice {
    /// The service's name.
    pub closed spec fn service(&self) -> Seq<char> {
        self.svc_name@
    }

    /// The deployment's name.
    pub closed spec fn deployment(&self) -> Seq<char> {
        self.deploy_name@
    }

    /// The routing entry of service `svc_name` and deployment `deploy_name`.
    pub fn new(svc_name: &str, deploy_name: &str) -> (r: Slice)
        ensures
            r.service() == svc_name@,
            r.deployment() == deploy_name@,
    {
        Slice { svc_name: String::from_str(svc_name), deploy_name: String::from_str(deploy_name) }
    }

    /// The service's name.
    pub fn service_name(&self) -> (r: String)
        ensures
            r@ == self.service(),
    {
        self.svc_name.clone()
    }

    /// The deployment's name.
    pub fn deployment_name(&self) -> (r: String)
        ensures
            r@ == self.deployment(),
    {
        self.deploy_name.clone()
    }

    /// The label selector that lists the entries bound to the service.
    pub fn label_selector(&self) -> (r: String)
        ensures
            r@ == SERVICE_LABEL@ + "="@ + self.service(),
    {
        let mut r = String::from_str(SERVICE_LABEL);
        r.append("=");
        r.append(self.svc_name.as_str());
        r
    }

    /// The index of the first entry of a listing that this deployment owns.
    pub fn owned_index(&self, items: &Vec<ListedSlice>) -> (r: Option<usize>)
        ensures
            match r {
                Some(i) => {
                    &&& i < items@.len()
                    &&& is_owned(items@[i as int], self.deployment())
                    &&& forall|j: int| 0 <= j < i ==> !is_owned(#[trigger] items@[j], self.deployment())
                },
                None => forall|j: int|
                    0 <= j < items@.len() ==> !is_owned(#[trigger] items@[j], self.deployment()),
            },
    {
        let key = String::from_str(MANAGED_BY);
        let mut i: usize = 0;
        while i < items.len()
            invariant
                0 <= i <= items@.len(),
                key@ == MANAGED_BY@,
                forall|j: int| 0 <= j < i ==> !is_owned(#[trigger] items@[j], self.deployment()),
            decreases items.len() - i,
        {
            let item = &items[i];
            if item.name.is_some() {
                match lookup(&item.annotations, &key) {
                    Some(v) => {
                        if *v == self.deploy_name {
                            return Some(i);
                        }
                    },
                    None => {},
                }
            }
            i = i + 1;
        }
        None
    }

    /// The name of the first entry of a listing that this deployment owns.
    pub fn find_slice(&self, items: &Vec<ListedSlice>) -> (r: Option<String>)
        ensures
            first_owned(items@, self.deployment()) == (match r {
                Some(n) => Some(n@),
                None => None,
            }),
    {
        match self.owned_index(items) {
            Some(i) => {
                proof {
                    lemma_first_owned_at(items@, self.deployment(), i as int);
                }
                match &items[i].name {
                    Some(n) => Some(n.clone()),
                    None => None,
                }
            },
            None => {
                proof {
                    lemma_none_owned(items@, self.deployment());
                }
                None
            },
        }
    }

    /// Whether the patch `p` would change labels `labels`: adding a label
    /// that already has the value, or removing one that is not there, is
    /// left undone.
    pub fn label_patch_needed(labels: &Vec<(String, String)>, p: &LabelPatch) -> (r: bool)
        ensures
            r == (match p.op {
                LabelOp::Add => value_of(labels@, p.key@) != Some(p.value@),
                LabelOp::Remove => value_of(labels@, p.key@) is Some,
            }),
    {
        let current = lookup(labels, &p.key);
        match p.op {
            LabelOp::Add => match current {
                Some(v) => !(*v == p.value),
                None => true,
            },
            LabelOp::Remove => current.is_some(),
        }
    }

    /// The entry to create: the proxy's `address` as its one endpoint, one
    /// TCP port, the selector label and the `managed-by` annotation.
    pub fn draft(&self, address: String, port: i32) -> (r: SliceDraft)
        ensures
            is_draft_of(r, self.service(), self.deployment(), address, port),
    {
        SliceDraft {
            generate_name: String::from_str(NAME_PREFIX),
            address_type: String::from_str(ADDRESS_TYPE),
            addresses: vec![address],
            port_name: String::from_str(PORT_NAME),
            protocol: String::from_str(PROTOCOL),
            port,
            labels: vec![(String::from_str(SERVICE_LABEL), self.svc_name.clone())],
            annotations: vec![(String::from_str(MANAGED_BY), self.deploy_name.clone())],
        }
    }

    /// What ensuring the entry amounts to, given a listing: the entry that
    /// this deployment owns is reused whenever the listing holds one, and
    /// only otherwise is a new one drafted.
    pub fn plan(&self, items: &Vec<ListedSlice>, address: String, port: i32) -> (r: SlicePlan)
        ensures
            match first_owned(items@, self.deployment()) {
                Some(n) => r matches SlicePlan::Reuse(name) && name@ == n,
                None => r matches SlicePlan::Create(d) && is_draft_of(
                    d,
                    self.service(),
                    self.deployment(),
                    address,
                    port,
                ),
            },
    {
        match self.find_slice(items) {
            Some(name) => SlicePlan::Reuse(name),
            None => SlicePlan::Create(self.draft(address, port)),
        }
    }

    /// The patch that attaches the entry: it sets the selector label to the
    /// service's name.
    pub fn attach_patch(&self) -> (r: LabelPatch)
        ensures
            r.op == LabelOp::Add,
            r.key@ == SERVICE_LABEL@,
            r.value@ == self.service(),
    {
        LabelPatch { op: LabelOp::Add, key: String::from_str(SERVICE_LABEL), value: self.svc_name.clone() }
    }

    /// The patch that detaches the entry: it takes the selector label away.
    pub fn detach_patch(&self) -> (r: LabelPatch)
        ensures
            r.op == LabelOp::Remove,
            r.key@ == SERVICE_LABEL@,
            r.value@ == self.service(),
    {
        LabelPatch {
            op: LabelOp::Remove,
            key: String::from_str(SERVICE_LABEL),
            value: self.svc_name.clone(),
        }
    }
}

/// The labels after applying the patch `p`.
pub open spec fn patched(labels: Map<Seq<char>, Seq<char>>, p: LabelPatch) -> Map<Seq<char>, Seq<char>> {
    labels_after(labels, p.op, p.key@, p.value@)
}

/// Attaching twice leaves the labels as attaching once does, and the service
/// then routes to the proxy.
pub proof fn lemma_attach_idempotent(s: Slice, p: LabelPatch, labels: Map<Seq<char>, Seq<char>>)
    requires
        p.op == LabelOp::Add,
        p.key@ == SERVICE_LABEL@,
        p.value@ == s.service(),
    ensures
        patched(patched(labels, p), p) == patched(labels, p),
        routes_to_proxy(patched(labels, p), s.service()),
{
    assert(patched(patched(labels, p), p) =~= patched(labels, p));
}

/// Detaching twice leaves the labels as detaching once does, and the service
/// then no longer routes to the proxy.
pub proof fn lemma_detach_idempotent(s: Slice, p: LabelPatch, labels: Map<Seq<char>, Seq<char>>)
    requires
        p.op == LabelOp::Remove,
        p.key@ == SERVICE_LABEL@,
        p.value@ == s.service(),
    ensures
        patched(patched(labels, p), p) == patched(labels, p),
        !routes_to_proxy(patched(labels, p), s.service()),
{
    assert(patched(patched(labels, p), p) =~= patched(labels, p));
}

/// The first entry that a deployment owns is the one found.
pub proof fn lemma_first_owned_at(items: Seq<ListedSlice>, deployment: Seq<char>, k: int)
    requires
        0 <= k < items.len(),
        is_owned(items[k], deployment),
        forall|j: int| 0 <= j < k ==> !is_owned(#[trigger] items[j], deployment),
    ensures
        first_owned(items, deployment) == Some(items[k].name.unwrap()@),
    decreases k,
{
    if k > 0 {
        let rest = items.drop_first();
        assert forall|j: int| 0 <= j < k - 1 implies !is_owned(#[trigger] rest[j], deployment) by {
            assert(rest[j] == items[j + 1]);
        }
        lemma_first_owned_at(rest, deployment, k - 1);
    }
}

/// A listing with no entry that the deployment owns yields no name.
pub proof fn lemma_none_owned(items: Seq<ListedSlice>, deployment: Seq<char>)
    requires
        forall|j: int| 0 <= j < items.len() ==> !is_owned(#[trigger] items[j], deployment),
    ensures
        first_owned(items, deployment) is None,
    decreases items.len(),
{
    if items.len() > 0 {
        let rest = items.drop_first();
        assert forall|j: int| 0 <= j < rest.len() implies !is_owned(#[trigger] rest[j], deployment) by {
            assert(rest[j] == items[j + 1]);
        }
        lemma_none_owned(rest, deployment);
    }
}

/// A listing that holds an entry the deployment owns yields a name, so no
/// second entry is created.
pub proof fn lemma_owned_entry_is_found(items: Seq<ListedSlice>, deployment: Seq<char>, k: int)
    requires
        0 <= k < items.len(),
        is_owned(items[k], deployment),
    ensures
        first_owned(items, deployment) is Some,
    decreases k,
{
    if k > 0 && !is_owned(items[0], deployment) {
        assert(items.drop_first()[k - 1] == items[k]);
        lemma_owned_entry_is_found(items.drop_first(), deployment, k - 1);
    }
}

/// An entry made from this slice's draft is owned by its deployment: once
/// the orchestrator has named it, every later plan, in this process or after
/// a restart, reuses that name while it is the first owned entry, and creates
/// nothing.
pub proof fn lemma_created_entry_found(
    s: Slice,
    d: SliceDraft,
    address: String,
    port: i32,
    name: String,
    items: Seq<ListedSlice>,
    k: int,
)
    requires
        is_draft_of(d, s.service(), s.deployment(), address, port),
        0 <= k < items.len(),
        items[k].name == Some(name),
        items[k].annotations@ == d.annotations@,
        forall|j: int| 0 <= j < k ==> !is_owned(#[trigger] items[j], s.deployment()),
    ensures
        first_owned(items, s.deployment()) == Some(name@),
{
    let a = d.annotations@;
    assert(a[0].0@ == MANAGED_BY@);
    assert(value_of(a, MANAGED_BY@) == Some(s.deployment()));
    lemma_first_owned_at(items, s.deployment(), k);
}

/// The value of the first pair whose key is `key`.
pub fn lookup<'a>(pairs: &'a Vec<(String, String)>, key: &String) -> (r: Option<&'a String>)
    ensures
        value_of(pairs@, key@) == (match r {
            Some(v) => Some(v@),
            None => None,
        }),
{
    let mut i: usize = 0;
    assert(pairs@.subrange(0, pairs@.len() as int) =~= pairs@);
    while i < pairs.len()
        invariant
            0 <= i <= pairs@.len(),
            value_of(pairs@, key@) == value_of(
                pairs@.subrange(i as int, pairs@.len() as int),
                key@,
            ),
        decreases pairs.len() - i,
    {
        let tail = Ghost(pairs@.subrange(i as int, pairs@.len() as int));
        assert(tail@.drop_first() =~= pairs@.subrange(i as int + 1, pairs@.len() as int));
        assert(tail@[0] == pairs@[i as int]);
        if pairs[i].0 == *key {
            return Some(&pairs[i].1);
        }
        i = i + 1;
    }
    None
}

} // verus!
