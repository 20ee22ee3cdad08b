//! The method calls recorded on an element, in call order, and how a
//! component reads them: the last call of a method wins, the first call of a
//! method that is read once stays, and a flag method counts as soon as it was
//! called once.

use vstd::prelude::*;
use crate::rules::{ComponentPayload, Payload};
use crate::text::{str_equal, strings_view};

verus! {

/// One recorded call: the method's name and the payload its rule recorded.
pub struct MethodCall {
    pub method: String,
    pub payload: ComponentPayload,
}

impl View for MethodCall {
    type V = (Seq<char>, Payload);

    open spec fn view(&self) -> (Seq<char>, Payload) {
        (self.method@, self.payload@)
    }
}

impl MethodCall {
    pub fn new(method: &str, payload: ComponentPayload) -> (call: Self)
        ensures
            call.method@ == method@,
            call.payload == payload,
    {
        MethodCall { method: String::from_str(method), payload }
    }
}

pub open spec fn calls_view(calls: Seq<MethodCall>) -> Seq<(Seq<char>, Payload)> {
    calls.map_values(|c: MethodCall| c@)
}

/// The payload of the last call of `method`.
pub open spec fn last_call(calls: Seq<(Seq<char>, Payload)>, method: Seq<char>) -> Option<Payload>
    decreases calls.len(),
{
    if calls.len() == 0 {
        None
    } else if calls.last().0 == method {
        Some(calls.last().1)
    } else {
        last_call(calls.drop_last(), method)
    }
}

/// The payload of the first call of `method`.
pub open spec fn first_call(calls: Seq<(Seq<char>, Payload)>, method: Seq<char>) -> Option<Payload>
    decreases calls.len(),
{
    if calls.len() == 0 {
        None
    } else if calls[0].0 == method {
        Some(calls[0].1)
    } else {
        first_call(calls.drop_first(), method)
    }
}

/// Whether `method` was called at all.
pub open spec fn was_called(calls: Seq<(Seq<char>, Payload)>, method: Seq<char>) -> bool {
    last_call(calls, method) is Some
}

/// The number the last call of `method` recorded, or `default`.
pub open spec fn last_number_or(
    calls: Seq<(Seq<char>, Payload)>,
    method: Seq<char>,
    default: u64,
) -> u64 {
    match last_call(calls, method) {
        Some(Payload::Number(n)) => n,
        _ => default,
    }
}

/// The number the last call of `method` recorded, if any.
pub open spec fn last_number(calls: Seq<(Seq<char>, Payload)>, method: Seq<char>) -> Option<u64> {
    match last_call(calls, method) {
        Some(Payload::Number(n)) => Some(n),
        _ => None,
    }
}

/// The flag the last call of `method` recorded, or `default`.
pub open spec fn last_flag_or(
    calls: Seq<(Seq<char>, Payload)>,
    method: Seq<char>,
    default: bool,
) -> bool {
    match last_call(calls, method) {
        Some(Payload::Flag(b)) => b,
        _ => default,
    }
}

/// The text the last call of `method` recorded, or the empty text.
pub open spec fn last_text(calls: Seq<(Seq<char>, Payload)>, method: Seq<char>) -> Seq<char> {
    match last_call(calls, method) {
        Some(Payload::Text(s)) => s,
        _ => Seq::empty(),
    }
}

/// The count the last call of `method` recorded, if any.
pub open spec fn last_count(calls: Seq<(Seq<char>, Payload)>, method: Seq<char>) -> Option<u64> {
    match last_call(calls, method) {
        Some(Payload::Count(n)) => Some(n),
        _ => None,
    }
}

/// The literal index the last call of `method` recorded, if any.
pub open spec fn last_choice(calls: Seq<(Seq<char>, Payload)>, method: Seq<char>) -> Option<u64> {
    match last_call(calls, method) {
        Some(Payload::Choice(i)) => Some(i),
        _ => None,
    }
}

/// The callback token the last call of `method` recorded, if any.
pub open spec fn last_callback(calls: Seq<(Seq<char>, Payload)>, method: Seq<char>) -> Option<u64> {
    match last_call(calls, method) {
        Some(Payload::Callback(t)) => Some(t),
        _ => None,
    }
}

/// The callback token the first call of `method` recorded, if any.
pub open spec fn first_callback(calls: Seq<(Seq<char>, Payload)>, method: Seq<char>) -> Option<
    u64,
> {
    match first_call(calls, method) {
        Some(Payload::Callback(t)) => Some(t),
        _ => None,
    }
}

/// The lines the last call of `method` recorded, or none.
pub open spec fn last_lines(calls: Seq<(Seq<char>, Payload)>, method: Seq<char>) -> Seq<Seq<char>> {
    match last_call(calls, method) {
        Some(Payload::Lines(lines)) => lines,
        _ => Seq::empty(),
    }
}

/// The payload of the last call of `method`.
pub fn last_payload<'a>(calls: &'a Vec<MethodCall>, method: &str) -> (r: Option<
    &'a ComponentPayload,
>)
    ensures
        match r {
            Some(p) => last_call(calls_view(calls@), method@) == Some(p@),
            None => last_call(calls_view(calls@), method@) is None,
        },
{
    let ghost v = calls_view(calls@);
    let mut i: usize = calls.len();
    proof {
        assert(v.take(i as int) =~= v);
    }
    while i > 0
        invariant
            i <= calls@.len(),
            v == calls_view(calls@),
            last_call(v, method@) == last_call(v.take(i as int), method@),
        decreases i,
    {
        let ghost t = v.take(i as int);
        proof {
            assert(t.last() == calls@[i - 1]@);
            assert(t.drop_last() =~= v.take(i - 1));
        }
        if str_equal(calls[i - 1].method.as_str(), method) {
            return Some(&calls[i - 1].payload);
        }
        i = i - 1;
    }
    proof {
        assert(v.take(0) =~= Seq::<(Seq<char>, Payload)>::empty());
    }
    None
}

/// The payload of the first call of `method`.
pub fn first_payload<'a>(calls: &'a Vec<MethodCall>, method: &str) -> (r: Option<
    &'a ComponentPayload,
>)
    ensures
        match r {
            Some(p) => first_call(calls_view(calls@), method@) == Some(p@),
            None => first_call(calls_view(calls@), method@) is None,
        },
{
    let ghost v = calls_view(calls@);
    let n = calls.len();
    let mut i: usize = 0;
    proof {
        assert(v.skip(0) =~= v);
    }
    while i < n
        invariant
            n == calls@.len(),
            i <= n,
            v == calls_view(calls@),
            first_call(v, method@) == first_call(v.skip(i as int), method@),
        decreases n - i,
    {
        let ghost s = v.skip(i as int);
        proof {
            assert(s[0] == calls@[i as int]@);
            assert(s.drop_first() =~= v.skip(i + 1));
        }
        if str_equal(calls[i].method.as_str(), method) {
            return Some(&calls[i].payload);
        }
        i = i + 1;
    }
    proof {
        assert(v.skip(n as int) =~= Seq::<(Seq<char>, Payload)>::empty());
    }
    None
}

/// Whether `method` was called at all.
pub fn called(calls: &Vec<MethodCall>, method: &str) -> (b: bool)
    ensures
        b == was_called(calls_view(calls@), method@),
{
    last_payload(calls, method).is_some()
}

/// The number the last call of `method` recorded, or `default`.
pub fn number_or(calls: &Vec<MethodCall>, method: &str, default: u64) -> (n: u64)
    ensures
        n == last_number_or(calls_view(calls@), method@, default),
{
    match last_payload(calls, method) {
        Some(ComponentPayload::Number(n)) => *n,
        _ => default,
    }
}

/// The number the last call of `method` recorded, if any.
pub fn number(calls: &Vec<MethodCall>, method: &str) -> (n: Option<u64>)
    ensures
        n == last_number(calls_view(calls@), method@),
{
    match last_payload(calls, method) {
        Some(ComponentPayload::Number(n)) => Some(*n),
        _ => None,
    }
}

/// The flag the last call of `method` recorded, or `default`.
pub fn flag_or(calls: &Vec<MethodCall>, method: &str, default: bool) -> (b: bool)
    ensures
        b == last_flag_or(calls_view(calls@), method@, default),
{
    match last_payload(calls, method) {
        Some(ComponentPayload::Flag(b)) => *b,
        _ => default,
    }
}

/// The text the last call of `method` recorded, or the empty text.
pub fn text(calls: &Vec<MethodCall>, method: &str) -> (s: String)
    ensures
        s@ == last_text(calls_view(calls@), method@),
{
    match last_payload(calls, method) {
        Some(ComponentPayload::Text(s)) => String::from_str(s.as_str()),
        _ => String::new(),
    }
}

/// The count the last call of `method` recorded, if any.
pub fn count(calls: &Vec<MethodCall>, method: &str) -> (n: Option<u64>)
    ensures
        n == last_count(calls_view(calls@), method@),
{
    match last_payload(calls, method) {
        Some(ComponentPayload::Count(n)) => Some(*n),
        _ => None,
    }
}

/// The literal index the last call of `method` recorded, if any.
pub fn choice(calls: &Vec<MethodCall>, method: &str) -> (i: Option<u64>)
    ensures
        i == last_choice(calls_view(calls@), method@),
{
    match last_payload(calls, method) {
        Some(ComponentPayload::Choice(i)) => Some(*i),
        _ => None,
    }
}

/// The callback token the last call of `method` recorded, if any.
pub fn callback(calls: &Vec<MethodCall>, method: &str) -> (t: Option<u64>)
    ensures
        t == last_callback(calls_view(calls@), method@),
{
    match last_payload(calls, method) {
        Some(ComponentPayload::Callback(t)) => Some(*t),
        _ => None,
    }
}

/// The callback token the first call of `method` recorded, if any.
pub fn first_callback_of(calls: &Vec<MethodCall>, method: &str) -> (t: Option<u64>)
    ensures
        t == first_callback(calls_view(calls@), method@),
{
    match first_payload(calls, method) {
        Some(ComponentPayload::Callback(t)) => Some(*t),
        _ => None,
    }
}

/// A copy of `lines`.
pub fn copy_lines(lines: &Vec<String>) -> (copy: Vec<String>)
    ensures
        strings_view(copy@) == strings_view(lines@),
{
    let mut copy: Vec<String> = Vec::new();
    let n = lines.len();
    let mut i: usize = 0;
    while i < n
        invariant
            n == lines@.len(),
            i <= n,
            strings_view(copy@) == strings_view(lines@).take(i as int),
        decreases n - i,
    {
        let ghost before = strings_view(copy@);
        copy.push(String::from_str(lines[i].as_str()));
        proof {
            assert(strings_view(copy@) =~= before.push(lines@[i as int]@));
            assert(strings_view(lines@).take(i + 1) =~= strings_view(lines@).take(i as int).push(
                lines@[i as int]@,
            ));
        }
        i = i + 1;
    }
    proof {
        assert(strings_view(lines@).take(n as int) =~= strings_view(lines@));
    }
    copy
}

/// The lines the last call of `method` recorded, or none.
pub fn lines(calls: &Vec<MethodCall>, method: &str) -> (v: Vec<String>)
    ensures
        strings_view(v@) == last_lines(calls_view(calls@), method@),
{
    match last_payload(calls, method) {
        Some(ComponentPayload::Lines(lines)) => copy_lines(lines),
        _ => {
            let v: Vec<String> = Vec::new();
            proof {
                assert(strings_view(v@) =~= Seq::<Seq<char>>::empty());
            }
            v
        },
    }
}

/// The label and callback token of every `Item` that calls of `method`
/// recorded, in call order.
pub open spec fn items_of(calls: Seq<(Seq<char>, Payload)>, method: Seq<char>) -> Seq<
    (Seq<char>, u64),
>
    decreases calls.len(),
{
    if calls.len() == 0 {
        Seq::empty()
    } else {
        let rest = items_of(calls.drop_last(), method);
        match calls.last().1 {
            Payload::Item(label, token) => if calls.last().0 == method {
                rest.push((label, token))
            } else {
                rest
            },
            _ => rest,
        }
    }
}

/// A later item call of `method` adds its item after the earlier ones; calls
/// of other methods, or recording no item, leave the items as they were.
pub proof fn lemma_items_keep_call_order(
    calls: Seq<(Seq<char>, Payload)>,
    call: (Seq<char>, Payload),
    method: Seq<char>,
)
    ensures
        items_of(calls.push(call), method) == (match call.1 {
            Payload::Item(label, token) => if call.0 == method {
                items_of(calls, method).push((label, token))
            } else {
                items_of(calls, method)
            },
            _ => items_of(calls, method),
        }),
{
    assert(calls.push(call).drop_last() =~= calls);
}

/// A labelled menu entry and the callback token it runs.
pub struct MenuItem {
    pub label: String,
    pub callback: u64,
}

/// Every item that calls of `method` recorded, in call order.
pub fn menu_items(calls: &Vec<MethodCall>, method: &str) -> (items: Vec<MenuItem>)
    ensures
        items@.len() == items_of(calls_view(calls@), method@).len(),
        forall|i: int|
            0 <= i < items@.len() ==> (#[trigger] items@[i].label@, items@[i].callback)
                == items_of(calls_view(calls@), method@)[i],
{
    let ghost v = calls_view(calls@);
    let mut items: Vec<MenuItem> = Vec::new();
    let n = calls.len();
    let mut i: usize = 0;
    proof {
        assert(v.take(0) =~= Seq::<(Seq<char>, Payload)>::empty());
    }
    while i < n
        invariant
            n == calls@.len(),
            i <= n,
            v == calls_view(calls@),
            items@.len() == items_of(v.take(i as int), method@).len(),
            forall|j: int|
                0 <= j < items@.len() ==> (#[trigger] items@[j].label@, items@[j].callback)
                    == items_of(v.take(i as int), method@)[j],
        decreases n - i,
    {
        proof {
            assert(v.take(i + 1).drop_last() =~= v.take(i as int));
            assert(v.take(i + 1).last() == calls@[i as int]@);
        }
        if str_equal(calls[i].method.as_str(), method) {
            if let ComponentPayload::Item(label, token) = &calls[i].payload {
                items.push(MenuItem { label: String::from_str(label.as_str()), callback: *token });
            }
        }
        i = i + 1;
    }
    proof {
        assert(v.take(n as int) =~= v);
    }
    items
}

/// The text of every call of `method`, in call order.
pub open spec fn texts_of(calls: Seq<(Seq<char>, Payload)>, method: Seq<char>) -> Seq<Seq<char>>
    decreases calls.len(),
{
    if calls.len() == 0 {
        Seq::empty()
    } else {
        let rest = texts_of(calls.drop_last(), method);
        match calls.last().1 {
            Payload::Text(text) => if calls.last().0 == method {
                rest.push(text)
            } else {
                rest
            },
            _ => rest,
        }
    }
}

/// The texts that calls of `method` recorded, in call order.
pub fn texts(calls: &Vec<MethodCall>, method: &str) -> (all: Vec<String>)
    ensures
        strings_view(all@) == texts_of(calls_view(calls@), method@),
{
    let ghost v = calls_view(calls@);
    let mut all: Vec<String> = Vec::new();
    let n = calls.len();
    let mut i: usize = 0;
    proof {
        assert(v.take(0) =~= Seq::<(Seq<char>, Payload)>::empty());
        assert(strings_view(all@) =~= Seq::<Seq<char>>::empty());
    }
    while i < n
        invariant
            n == calls@.len(),
            i <= n,
            v == calls_view(calls@),
            strings_view(all@) == texts_of(v.take(i as int), method@),
        decreases n - i,
    {
        proof {
            assert(v.take(i + 1).drop_last() =~= v.take(i as int));
            assert(v.take(i + 1).last() == calls@[i as int]@);
        }
        if str_equal(calls[i].method.as_str(), method) {
            if let ComponentPayload::Text(text) = &calls[i].payload {
                let ghost before = strings_view(all@);
                all.push(String::from_str(text.as_str()));
                proof {
                    assert(strings_view(all@) =~= before.push(text@));
                }
            }
        }
        i = i + 1;
    }
    proof {
        assert(v.take(n as int) =~= v);
    }
    all
}

/// The element token of every call of `method`, in call order.
pub open spec fn elements_of(calls: Seq<(Seq<char>, Payload)>, method: Seq<char>) -> Seq<u64>
    decreases calls.len(),
{
    if calls.len() == 0 {
        Seq::empty()
    } else {
        let rest = elements_of(calls.drop_last(), method);
        match calls.last().1 {
            Payload::Element(token) => if calls.last().0 == method {
                rest.push(token)
            } else {
                rest
            },
            _ => rest,
        }
    }
}

/// The element tokens that calls of `method` recorded, in call order.
pub fn elements(calls: &Vec<MethodCall>, method: &str) -> (tokens: Vec<u64>)
    ensures
        tokens@ == elements_of(calls_view(calls@), method@),
{
    let ghost v = calls_view(calls@);
    let mut tokens: Vec<u64> = Vec::new();
    let n = calls.len();
    let mut i: usize = 0;
    proof {
        assert(v.take(0) =~= Seq::<(Seq<char>, Payload)>::empty());
    }
    while i < n
        invariant
            n == calls@.len(),
            i <= n,
            v == calls_view(calls@),
            tokens@ == elements_of(v.take(i as int), method@),
        decreases n - i,
    {
        proof {
            assert(v.take(i + 1).drop_last() =~= v.take(i as int));
            assert(v.take(i + 1).last() == calls@[i as int]@);
        }
        if str_equal(calls[i].method.as_str(), method) {
            if let ComponentPayload::Element(token) = &calls[i].payload {
                tokens.push(*token);
            }
        }
        i = i + 1;
    }
    proof {
        assert(v.take(n as int) =~= v);
    }
    tokens
}

/// A later call of a method replaces what earlier calls of it recorded, and
/// leaves what other methods recorded as it was.
pub proof fn lemma_later_call_wins(
    calls: Seq<(Seq<char>, Payload)>,
    call: (Seq<char>, Payload),
    method: Seq<char>,
)
    ensures
        last_call(calls.push(call), call.0) == Some(call.1),
        method != call.0 ==> last_call(calls.push(call), method) == last_call(calls, method),
{
    assert(calls.push(call).drop_last() =~= calls);
}

/// Once a method was called, later calls do not change what its first call
/// recorded.
pub proof fn lemma_first_call_stays(
    calls: Seq<(Seq<char>, Payload)>,
    call: (Seq<char>, Payload),
    method: Seq<char>,
)
    requires
        first_call(calls, method) is Some,
    ensures
        first_call(calls.push(call), method) == first_call(calls, method),
    decreases calls.len(),
{
    if calls[0].0 != method {
        lemma_first_call_stays(calls.drop_first(), call, method);
        assert(calls.push(call).drop_first() =~= calls.drop_first().push(call));
    }
}

} // verus!
