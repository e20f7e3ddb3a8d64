use vstd::prelude::*;
use vstd::utf8::{decode_utf8, encode_utf8, encode_utf8_decode_utf8, encode_utf8_valid_utf8, valid_utf8};

use vstd::string::*;

use crate::action::{Action, ActionKind, ActionKindModel, ActionModel, ActionState};
use crate::plan::{InstallPlan, InstallPlanModel};
use crate::planner::{opt_view, BuiltinPlanner, BuiltinPlannerModel, DarwinMulti, DarwinMultiModel};

verus! {

// A receipt is a flat byte string. Fixed-width fields are one tag byte each;
// a string is its UTF-8 bytes, each preceded by a 1, closed by a 0; the
// action list is each action preceded by a 1, closed by a 0.

/// A byte string framed so that its end can be found: each byte preceded by
/// a 1, then a closing 0.
pub open spec fn stuff(b: Seq<u8>) -> Seq<u8>
    decreases b.len(),
{
    if b.len() == 0 {
        seq![0u8]
    } else {
        seq![1u8, b[0]] + stuff(b.drop_first())
    }
}

/// Reads one framed byte string off the front of `s`, with what follows it.
pub open spec fn unstuff(s: Seq<u8>) -> Option<(Seq<u8>, Seq<u8>)>
    decreases s.len(),
{
    if s.len() == 0 {
        None
    } else if s[0] == 0 {
        Some((Seq::empty(), s.skip(1)))
    } else if s[0] == 1 && s.len() >= 2 {
        match unstuff(s.skip(2)) {
            Some((b, rest)) => Some((seq![s[1]] + b, rest)),
            None => None,
        }
    } else {
        None
    }
}

pub open spec fn enc_bool(b: bool) -> Seq<u8> {
    seq![if b { 1u8 } else { 0u8 }]
}

pub open spec fn parse_bool(s: Seq<u8>) -> Option<(bool, Seq<u8>)> {
    if s.len() > 0 && s[0] == 0 {
        Some((false, s.skip(1)))
    } else if s.len() > 0 && s[0] == 1 {
        Some((true, s.skip(1)))
    } else {
        None
    }
}

pub open spec fn enc_str(t: Seq<char>) -> Seq<u8> {
    stuff(encode_utf8(t))
}

pub open spec fn parse_str(s: Seq<u8>) -> Option<(Seq<char>, Seq<u8>)> {
    match unstuff(s) {
        Some((b, rest)) => if valid_utf8(b) {
            Some((decode_utf8(b), rest))
        } else {
            None
        },
        None => None,
    }
}

pub open spec fn enc_opt_str(o: Option<Seq<char>>) -> Seq<u8> {
    match o {
        None => seq![0u8],
        Some(t) => seq![1u8] + enc_str(t),
    }
}

pub open spec fn parse_opt_str(s: Seq<u8>) -> Option<(Option<Seq<char>>, Seq<u8>)> {
    if s.len() > 0 && s[0] == 0 {
        Some((None, s.skip(1)))
    } else if s.len() > 0 && s[0] == 1 {
        match parse_str(s.skip(1)) {
            Some((t, rest)) => Some((Some(t), rest)),
            None => None,
        }
    } else {
        None
    }
}

/// The planner: a tag for its kind, then its settings.
pub open spec fn enc_planner(p: BuiltinPlannerModel) -> Seq<u8> {
    match p {
        BuiltinPlannerModel::DarwinMulti(d) => seq![0u8] + enc_bool(d.volume_encrypt) + enc_str(
            d.volume_label,
        ) + enc_opt_str(d.root_disk),
    }
}

pub open spec fn parse_planner(s: Seq<u8>) -> Option<(BuiltinPlannerModel, Seq<u8>)> {
    if s.len() > 0 && s[0] == 0 {
        match parse_bool(s.skip(1)) {
            Some((e, r1)) => match parse_str(r1) {
                Some((l, r2)) => match parse_opt_str(r2) {
                    Some((d, r3)) => Some(
                        (
                            BuiltinPlannerModel::DarwinMulti(
                                DarwinMultiModel { volume_encrypt: e, volume_label: l, root_disk: d },
                            ),
                            r3,
                        ),
                    ),
                    None => None,
                },
                None => None,
            },
            None => None,
        }
    } else {
        None
    }
}

pub open spec fn state_tag(st: ActionState) -> u8 {
    match st {
        ActionState::Uncompleted => 0,
        ActionState::Completed => 1,
        ActionState::Reverted => 2,
    }
}

pub open spec fn parse_state(s: Seq<u8>) -> Option<(ActionState, Seq<u8>)> {
    if s.len() > 0 && s[0] == 0 {
        Some((ActionState::Uncompleted, s.skip(1)))
    } else if s.len() > 0 && s[0] == 1 {
        Some((ActionState::Completed, s.skip(1)))
    } else if s.len() > 0 && s[0] == 2 {
        Some((ActionState::Reverted, s.skip(1)))
    } else {
        None
    }
}

/// An action: a tag for its kind, its payload, then its state.
pub open spec fn enc_action(a: ActionModel) -> Seq<u8> {
    let kind = match a.kind {
        ActionKindModel::CreateVolume { disk, label, encrypt } => seq![0u8] + enc_str(disk)
            + enc_str(label) + enc_bool(encrypt),
        ActionKindModel::ProvisionSoftware => seq![1u8],
        ActionKindModel::ConfigureSoftware => seq![2u8],
        ActionKindModel::StartManagedService { service } => seq![3u8] + enc_str(service),
    };
    kind + seq![state_tag(a.state)]
}

pub open spec fn parse_kind(s: Seq<u8>) -> Option<(ActionKindModel, Seq<u8>)> {
    if s.len() > 0 && s[0] == 0 {
        match parse_str(s.skip(1)) {
            Some((disk, r1)) => match parse_str(r1) {
                Some((label, r2)) => match parse_bool(r2) {
                    Some((encrypt, r3)) => Some(
                        (ActionKindModel::CreateVolume { disk, label, encrypt }, r3),
                    ),
                    None => None,
                },
                None => None,
            },
            None => None,
        }
    } else if s.len() > 0 && s[0] == 1 {
        Some((ActionKindModel::ProvisionSoftware, s.skip(1)))
    } else if s.len() > 0 && s[0] == 2 {
        Some((ActionKindModel::ConfigureSoftware, s.skip(1)))
    } else if s.len() > 0 && s[0] == 3 {
        match parse_str(s.skip(1)) {
            Some((service, r1)) => Some((ActionKindModel::StartManagedService { service }, r1)),
            None => None,
        }
    } else {
        None
    }
}

pub open spec fn parse_action(s: Seq<u8>) -> Option<(ActionModel, Seq<u8>)> {
    match parse_kind(s) {
        Some((kind, r1)) => match parse_state(r1) {
            Some((state, r2)) => Some((ActionModel { kind, state }, r2)),
            None => None,
        },
        None => None,
    }
}

pub open spec fn enc_actions(a: Seq<ActionModel>) -> Seq<u8>
    decreases a.len(),
{
    if a.len() == 0 {
        seq![0u8]
    } else {
        seq![1u8] + enc_action(a[0]) + enc_actions(a.drop_first())
    }
}

pub open spec fn parse_actions(s: Seq<u8>) -> Option<(Seq<ActionModel>, Seq<u8>)>
    decreases s.len(),
{
    if s.len() > 0 && s[0] == 0 {
        Some((Seq::empty(), s.skip(1)))
    } else if s.len() > 0 && s[0] == 1 {
        match parse_action(s.skip(1)) {
            Some((a, r1)) => if r1.len() < s.len() {
                match parse_actions(r1) {
                    Some((rest, r2)) => Some((seq![a] + rest, r2)),
                    None => None,
                }
            } else {
                None
            },
            None => None,
        }
    } else {
        None
    }
}

/// The receipt of a plan: its planner and settings, then every action in
/// order with its payload and state.
pub open spec fn encode_plan(p: InstallPlanModel) -> Seq<u8> {
    enc_planner(p.planner) + enc_actions(p.actions)
}

/// The plan that a receipt records, if `s` is one, whole.
pub open spec fn decode_plan(s: Seq<u8>) -> Option<InstallPlanModel> {
    match parse_planner(s) {
        Some((planner, r1)) => match parse_actions(r1) {
            Some((actions, r2)) => if r2.len() == 0 {
                Some(InstallPlanModel { planner, actions })
            } else {
                None
            },
            None => None,
        },
        None => None,
    }
}

proof fn lemma_unstuff_stuff(b: Seq<u8>, rest: Seq<u8>)
    ensures
        unstuff(stuff(b) + rest) == Some((b, rest)),
    decreases b.len(),
{
    let s = stuff(b) + rest;
    if b.len() == 0 {
        assert(s.skip(1) =~= rest);
    } else {
        lemma_unstuff_stuff(b.drop_first(), rest);
        assert(s.skip(2) =~= stuff(b.drop_first()) + rest);
        assert(seq![b[0]] + b.drop_first() =~= b);
    }
}

proof fn lemma_parse_bool(v: bool, rest: Seq<u8>)
    ensures
        parse_bool(enc_bool(v) + rest) == Some((v, rest)),
{
    assert((enc_bool(v) + rest).skip(1) =~= rest);
}

proof fn lemma_parse_str(t: Seq<char>, rest: Seq<u8>)
    ensures
        parse_str(enc_str(t) + rest) == Some((t, rest)),
{
    lemma_unstuff_stuff(encode_utf8(t), rest);
    encode_utf8_valid_utf8(t);
    encode_utf8_decode_utf8(t);
}

proof fn lemma_parse_opt_str(o: Option<Seq<char>>, rest: Seq<u8>)
    ensures
        parse_opt_str(enc_opt_str(o) + rest) == Some((o, rest)),
{
    match o {
        None => {
            assert((enc_opt_str(o) + rest).skip(1) =~= rest);
        },
        Some(t) => {
            lemma_parse_str(t, rest);
            assert((enc_opt_str(o) + rest).skip(1) =~= enc_str(t) + rest);
        },
    }
}

proof fn lemma_parse_planner(p: BuiltinPlannerModel, rest: Seq<u8>)
    ensures
        parse_planner(enc_planner(p) + rest) == Some((p, rest)),
{
    match p {
        BuiltinPlannerModel::DarwinMulti(d) => {
            let s = enc_planner(p) + rest;
            let r2 = enc_opt_str(d.root_disk) + rest;
            let r1 = enc_str(d.volume_label) + r2;
            assert(s.skip(1) =~= enc_bool(d.volume_encrypt) + r1);
            lemma_parse_bool(d.volume_encrypt, r1);
            lemma_parse_str(d.volume_label, r2);
            lemma_parse_opt_str(d.root_disk, rest);
        },
    }
}

proof fn lemma_parse_action(a: ActionModel, rest: Seq<u8>)
    ensures
        parse_action(enc_action(a) + rest) == Some((a, rest)),
{
    let s = enc_action(a) + rest;
    let tail = seq![state_tag(a.state)] + rest;
    assert((seq![state_tag(a.state)] + rest).skip(1) =~= rest);
    match a.kind {
        ActionKindModel::CreateVolume { disk, label, encrypt } => {
            let r2 = enc_bool(encrypt) + tail;
            let r1 = enc_str(label) + r2;
            assert(s.skip(1) =~= enc_str(disk) + r1);
            lemma_parse_str(disk, r1);
            lemma_parse_str(label, r2);
            lemma_parse_bool(encrypt, tail);
        },
        ActionKindModel::ProvisionSoftware => {
            assert(s.skip(1) =~= tail);
        },
        ActionKindModel::ConfigureSoftware => {
            assert(s.skip(1) =~= tail);
        },
        ActionKindModel::StartManagedService { service } => {
            assert(s.skip(1) =~= enc_str(service) + tail);
            lemma_parse_str(service, tail);
        },
    }
}

proof fn lemma_parse_actions(a: Seq<ActionModel>, rest: Seq<u8>)
    ensures
        parse_actions(enc_actions(a) + rest) == Some((a, rest)),
    decreases a.len(),
{
    let s = enc_actions(a) + rest;
    if a.len() == 0 {
        assert(s.skip(1) =~= rest);
    } else {
        let r1 = enc_actions(a.drop_first()) + rest;
        assert(s.skip(1) =~= enc_action(a[0]) + r1);
        lemma_parse_action(a[0], r1);
        lemma_parse_actions(a.drop_first(), rest);
        assert(seq![a[0]] + a.drop_first() =~= a);
    }
}

/// Reading a receipt back gives the plan that was written: its planner and
/// settings, and the same actions in the same order, each with its payload
/// and state.
pub proof fn lemma_receipt_round_trip(p: InstallPlanModel)
    ensures
        decode_plan(encode_plan(p)) == Some(p),
{
    let empty = Seq::<u8>::empty();
    lemma_parse_planner(p.planner, enc_actions(p.actions));
    lemma_parse_actions(p.actions, empty);
    assert(enc_actions(p.actions) + empty =~= enc_actions(p.actions));
}

/// Relies on std's `String::from_utf8`: it succeeds exactly on valid UTF-8,
/// and the string then holds the characters that the bytes encode.
#[verifier::external_body]
fn string_from_utf8(bytes: Vec<u8>) -> (r: Option<String>)
    ensures
        r is Some <==> valid_utf8(bytes@),
        r is Some ==> r->Some_0@ == decode_utf8(bytes@),
{
    String::from_utf8(bytes).ok()
}

/// Why a byte string could not be read as a receipt.
#[derive(PartialEq, Eq, Structural, Clone, Copy, Debug)]
pub enum ReceiptError {
    /// The bytes are not a receipt written by `serialize`.
    Malformed,
}

fn write_stuffed(out: &mut Vec<u8>, b: &Vec<u8>)
    ensures
        final(out)@ == old(out)@ + stuff(b@),
{
    let mut i: usize = 0;
    assert(b@.skip(0) =~= b@);
    while i < b.len()
        invariant
            i <= b@.len(),
            out@ + stuff(b@.skip(i as int)) == old(out)@ + stuff(b@),
        decreases b@.len() - i,
    {
        let ghost before = out@;
        let ghost tail = b@.skip(i as int);
        assert(tail.drop_first() =~= b@.skip(i + 1));
        out.push(1u8);
        out.push(b[i]);
        assert(before + stuff(tail) =~= out@ + stuff(b@.skip(i + 1)));
        i = i + 1;
    }
    let ghost before = out@;
    assert(b@.skip(i as int) =~= Seq::<u8>::empty());
    out.push(0u8);
    assert(before + stuff(b@.skip(i as int)) =~= out@);
}

fn write_bool(out: &mut Vec<u8>, v: bool)
    ensures
        final(out)@ == old(out)@ + enc_bool(v),
{
    out.push(if v { 1u8 } else { 0u8 });
    assert(out@ =~= old(out)@ + enc_bool(v));
}

fn write_str(out: &mut Vec<u8>, t: &String)
    ensures
        final(out)@ == old(out)@ + enc_str(t@),
{
    let b = t.as_str().as_bytes_vec();
    write_stuffed(out, &b);
}

fn write_opt_str(out: &mut Vec<u8>, o: &Option<String>)
    ensures
        final(out)@ == old(out)@ + enc_opt_str(opt_view(*o)),
{
    match o {
        None => {
            out.push(0u8);
            assert(out@ =~= old(out)@ + enc_opt_str(opt_view(*o)));
        },
        Some(t) => {
            out.push(1u8);
            write_str(out, t);
            assert(out@ =~= old(out)@ + enc_opt_str(opt_view(*o)));
        },
    }
}

fn write_planner(out: &mut Vec<u8>, p: &BuiltinPlanner)
    ensures
        final(out)@ == old(out)@ + enc_planner(p@),
{
    match p {
        BuiltinPlanner::DarwinMulti(d) => {
            out.push(0u8);
            write_bool(out, d.volume_encrypt());
            write_str(out, d.volume_label());
            write_opt_str(out, d.root_disk());
            assert(out@ =~= old(out)@ + enc_planner(p@));
        },
    }
}

fn write_action(out: &mut Vec<u8>, a: &Action)
    ensures
        final(out)@ == old(out)@ + enc_action(a@),
{
    match &a.kind {
        ActionKind::CreateVolume { disk, label, encrypt } => {
            out.push(0u8);
            write_str(out, disk);
            write_str(out, label);
            write_bool(out, *encrypt);
        },
        ActionKind::ProvisionSoftware => {
            out.push(1u8);
        },
        ActionKind::ConfigureSoftware => {
            out.push(2u8);
        },
        ActionKind::StartManagedService { service } => {
            out.push(3u8);
            write_str(out, service);
        },
    }
    let tag: u8 = match a.state {
        ActionState::Uncompleted => 0,
        ActionState::Completed => 1,
        ActionState::Reverted => 2,
    };
    out.push(tag);
    assert(out@ =~= old(out)@ + enc_action(a@));
}

/// Writes the receipt of `plan`: its planner and settings, and every action
/// in order with its payload and state.
pub fn serialize(plan: &InstallPlan) -> (r: Vec<u8>)
    ensures
        r@ == encode_plan(plan@),
{
    let mut out: Vec<u8> = Vec::new();
    write_planner(&mut out, &plan.planner);
    assert(out@ =~= enc_planner(plan@.planner));
    let mut i: usize = 0;
    assert(plan@.actions.skip(0) =~= plan@.actions);
    while i < plan.actions.len()
        invariant
            i <= plan.actions@.len(),
            plan@.actions.len() == plan.actions@.len(),
            out@ + enc_actions(plan@.actions.skip(i as int)) == encode_plan(plan@),
        decreases plan.actions@.len() - i,
    {
        let ghost before = out@;
        let ghost tail = plan@.actions.skip(i as int);
        assert(tail.drop_first() =~= plan@.actions.skip(i + 1));
        assert(tail[0] == plan.actions@[i as int]@);
        out.push(1u8);
        write_action(&mut out, &plan.actions[i]);
        assert(before + enc_actions(tail) =~= out@ + enc_actions(plan@.actions.skip(i + 1)));
        i = i + 1;
    }
    let ghost before = out@;
    assert(plan@.actions.skip(i as int) =~= Seq::<ActionModel>::empty());
    out.push(0u8);
    assert(before + enc_actions(plan@.actions.skip(i as int)) =~= out@);
    out
}

/// `o` in front of the bytes that `r` read, if it read any.
pub open spec fn prepend(o: Seq<u8>, r: Option<(Seq<u8>, Seq<u8>)>) -> Option<(Seq<u8>, Seq<u8>)> {
    match r {
        Some((b, rest)) => Some((o + b, rest)),
        None => None,
    }
}

/// What a reader at `pos` of `buf` reports when the spec parser gives `p`:
/// the same value, and the position where the rest begins.
pub open spec fn read_matches<T, V>(
    buf: Seq<u8>,
    p: Option<(V, Seq<u8>)>,
    r: Option<(T, usize)>,
    view: spec_fn(T) -> V,
) -> bool {
    match p {
        Some((v, rest)) => r is Some && view(r->Some_0.0) == v && r->Some_0.1 <= buf.len()
            && buf.skip(r->Some_0.1 as int) == rest,
        None => r is None,
    }
}

fn read_stuffed(buf: &[u8], pos: usize) -> (r: Option<(Vec<u8>, usize)>)
    requires
        pos <= buf@.len(),
    ensures
        read_matches(buf@, unstuff(buf@.skip(pos as int)), r, |v: Vec<u8>| v@),
        r is Some ==> pos < r->Some_0.1,
{
    let mut out: Vec<u8> = Vec::new();
    let mut cur: usize = pos;
    assert(unstuff(buf@.skip(pos as int)) == prepend(out@, unstuff(buf@.skip(cur as int)))) by {
        match unstuff(buf@.skip(pos as int)) {
            Some((b, rest)) => {
                assert(out@ + b =~= b);
            },
            None => {},
        }
    }
    loop
        invariant
            pos <= cur <= buf@.len(),
            unstuff(buf@.skip(pos as int)) == prepend(out@, unstuff(buf@.skip(cur as int))),
        decreases buf@.len() - cur,
    {
        let ghost s = buf@.skip(cur as int);
        if cur >= buf.len() {
            return None;
        }
        let tag = buf[cur];
        if tag == 0 {
            assert(s.skip(1) =~= buf@.skip(cur + 1));
            assert(out@ + Seq::<u8>::empty() =~= out@);
            return Some((out, cur + 1));
        }
        if tag != 1 || cur + 1 >= buf.len() {
            return None;
        }
        let x = buf[cur + 1];
        assert(s.skip(2) =~= buf@.skip(cur + 2));
        let ghost before = out@;
        out.push(x);
        proof {
            match unstuff(buf@.skip(cur + 2)) {
                Some((b, rest)) => {
                    assert(before + (seq![x] + b) =~= out@ + b);
                },
                None => {},
            }
        }
        cur = cur + 2;
    }
}

fn read_bool(buf: &[u8], pos: usize) -> (r: Option<(bool, usize)>)
    requires
        pos <= buf@.len(),
    ensures
        read_matches(buf@, parse_bool(buf@.skip(pos as int)), r, |v: bool| v),
        r is Some ==> pos < r->Some_0.1,
{
    if pos < buf.len() && (buf[pos] == 0 || buf[pos] == 1) {
        assert(buf@.skip(pos as int).skip(1) =~= buf@.skip(pos + 1));
        Some((buf[pos] == 1, pos + 1))
    } else {
        None
    }
}

fn read_str(buf: &[u8], pos: usize) -> (r: Option<(String, usize)>)
    requires
        pos <= buf@.len(),
    ensures
        read_matches(buf@, parse_str(buf@.skip(pos as int)), r, |v: String| v@),
        r is Some ==> pos < r->Some_0.1,
{
    match read_stuffed(buf, pos) {
        Some((b, end)) => match string_from_utf8(b) {
            Some(t) => Some((t, end)),
            None => None,
        },
        None => None,
    }
}

fn read_opt_str(buf: &[u8], pos: usize) -> (r: Option<(Option<String>, usize)>)
    requires
        pos <= buf@.len(),
    ensures
        read_matches(buf@, parse_opt_str(buf@.skip(pos as int)), r, |v: Option<String>| opt_view(v)),
{
    if pos < buf.len() && buf[pos] == 0 {
        assert(buf@.skip(pos as int).skip(1) =~= buf@.skip(pos + 1));
        Some((None, pos + 1))
    } else if pos < buf.len() && buf[pos] == 1 {
        assert(buf@.skip(pos as int).skip(1) =~= buf@.skip(pos + 1));
        match read_str(buf, pos + 1) {
            Some((t, end)) => Some((Some(t), end)),
            None => None,
        }
    } else {
        None
    }
}

fn read_planner(buf: &[u8], pos: usize) -> (r: Option<(BuiltinPlanner, usize)>)
    requires
        pos <= buf@.len(),
    ensures
        read_matches(buf@, parse_planner(buf@.skip(pos as int)), r, |v: BuiltinPlanner| v@),
{
    if pos < buf.len() && buf[pos] == 0 {
        assert(buf@.skip(pos as int).skip(1) =~= buf@.skip(pos + 1));
        let (encrypt, p1) = match read_bool(buf, pos + 1) {
            Some(x) => x,
            None => {
                return None;
            },
        };
        let (label, p2) = match read_str(buf, p1) {
            Some(x) => x,
            None => {
                return None;
            },
        };
        let (disk, p3) = match read_opt_str(buf, p2) {
            Some(x) => x,
            None => {
                return None;
            },
        };
        Some((DarwinMulti::new(encrypt, label, disk).into_planner(), p3))
    } else {
        None
    }
}

fn read_action(buf: &[u8], pos: usize) -> (r: Option<(Action, usize)>)
    requires
        pos <= buf@.len(),
    ensures
        read_matches(buf@, parse_action(buf@.skip(pos as int)), r, |v: Action| v@),
        r is Some ==> pos < r->Some_0.1,
{
    if pos >= buf.len() {
        return None;
    }
    assert(buf@.skip(pos as int).skip(1) =~= buf@.skip(pos + 1));
    let tag = buf[pos];
    let (kind, p1) = if tag == 0 {
        let (disk, p1) = match read_str(buf, pos + 1) {
            Some(x) => x,
            None => {
                return None;
            },
        };
        let (label, p2) = match read_str(buf, p1) {
            Some(x) => x,
            None => {
                return None;
            },
        };
        let (encrypt, p3) = match read_bool(buf, p2) {
            Some(x) => x,
            None => {
                return None;
            },
        };
        (ActionKind::CreateVolume { disk, label, encrypt }, p3)
    } else if tag == 1 {
        (ActionKind::ProvisionSoftware, pos + 1)
    } else if tag == 2 {
        (ActionKind::ConfigureSoftware, pos + 1)
    } else if tag == 3 {
        let (service, p1) = match read_str(buf, pos + 1) {
            Some(x) => x,
            None => {
                return None;
            },
        };
        (ActionKind::StartManagedService { service }, p1)
    } else {
        return None;
    };
    if p1 >= buf.len() {
        return None;
    }
    assert(buf@.skip(p1 as int).skip(1) =~= buf@.skip(p1 + 1));
    let st = buf[p1];
    let state = if st == 0 {
        ActionState::Uncompleted
    } else if st == 1 {
        ActionState::Completed
    } else if st == 2 {
        ActionState::Reverted
    } else {
        return None;
    };
    Some((Action { kind, state }, p1 + 1))
}

/// Reads a receipt written by `serialize` back into the plan it records. Any
/// other byte string is refused.
pub fn deserialize(bytes: &[u8]) -> (r: Result<InstallPlan, ReceiptError>)
    ensures
        match decode_plan(bytes@) {
            Some(p) => r is Ok && r->Ok_0@ == p,
            None => r == Err::<InstallPlan, ReceiptError>(ReceiptError::Malformed),
        },
{
    let (planner, start) = match read_planner(bytes, 0) {
        Some(x) => x,
        None => {
            assert(bytes@.skip(0) =~= bytes@);
            return Err(ReceiptError::Malformed);
        },
    };
    assert(bytes@.skip(0) =~= bytes@);
    let ghost first = bytes@.skip(start as int);
    let mut actions: Vec<Action> = Vec::new();
    let mut cur: usize = start;
    assert(actions@.map_values(|a: Action| a@) =~= Seq::<ActionModel>::empty());
    assert(parse_actions(first) == match parse_actions(bytes@.skip(cur as int)) {
        Some((rest, r2)) => Some((actions@.map_values(|a: Action| a@) + rest, r2)),
        None => None::<(Seq<ActionModel>, Seq<u8>)>,
    }) by {
        match parse_actions(first) {
            Some((rest, r2)) => {
                assert(Seq::<ActionModel>::empty() + rest =~= rest);
            },
            None => {},
        }
    }
    loop
        invariant
            start <= cur <= bytes@.len(),
            parse_planner(bytes@) is Some,
            parse_planner(bytes@)->Some_0.0 == planner@,
            parse_planner(bytes@)->Some_0.1 == first,
            first == bytes@.skip(start as int),
            parse_actions(first) == match parse_actions(bytes@.skip(cur as int)) {
                Some((rest, r2)) => Some((actions@.map_values(|a: Action| a@) + rest, r2)),
                None => None::<(Seq<ActionModel>, Seq<u8>)>,
            },
        decreases bytes@.len() - cur,
    {
        let ghost s = bytes@.skip(cur as int);
        if cur >= bytes.len() {
            return Err(ReceiptError::Malformed);
        }
        let tag = bytes[cur];
        assert(s.skip(1) =~= bytes@.skip(cur + 1));
        if tag == 0 {
            if cur + 1 == bytes.len() {
                let plan = InstallPlan { planner, actions };
                assert(s.skip(1).len() == 0);
                assert(plan@.actions =~= actions@.map_values(|a: Action| a@) + Seq::<
                    ActionModel,
                >::empty());
                return Ok(plan);
            }
            return Err(ReceiptError::Malformed);
        }
        if tag != 1 {
            return Err(ReceiptError::Malformed);
        }
        let (a, next) = match read_action(bytes, cur + 1) {
            Some(x) => x,
            None => {
                return Err(ReceiptError::Malformed);
            },
        };
        assert(bytes@.skip(next as int).len() < s.len());
        let ghost before = actions@.map_values(|a: Action| a@);
        let ghost av = a@;
        actions.push(a);
        assert(actions@.map_values(|a: Action| a@) =~= before.push(av));
        proof {
            match parse_actions(bytes@.skip(next as int)) {
                Some((rest, r2)) => {
                    assert(before + (seq![av] + rest) =~= before.push(av) + rest);
                },
                None => {},
            }
        }
        cur = next;
    }
}

} // verus!
