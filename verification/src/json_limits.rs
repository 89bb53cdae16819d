//! Depth and element-count limits for JSON input, checked by a scan of the
//! raw bytes before any parse.

use vstd::prelude::*;
use crate::error::{Error, ErrorKind, Result};
use crate::limits::{MAX_JSON_DEPTH, MAX_JSON_ELEMENTS};
use crate::text::{format_decimal, owned, push_str};

verus! {

/// What the scan carries from one byte of JSON to the next.
///
/// The counts and the string-literal position move together: a brace inside a
/// string is not nesting.
#[derive(Clone, Copy)]
pub struct JsonScanState {
    pub depth: usize,
    pub max_depth: usize,
    pub elements: usize,
    pub in_string: bool,
    pub escape: bool,
}

/// Which limit a scan ran into.
#[derive(Debug, Clone, Copy, PartialEq, Eq, Structural)]
pub enum JsonLimitBreach {
    Depth,
    Elements,
}

impl JsonScanState {
    /// The state a scan starts from.
    pub open spec fn initial() -> JsonScanState {
        JsonScanState { depth: 0, max_depth: 0, elements: 0, in_string: false, escape: false }
    }

    /// The counts stay within the limits, which is what keeps them from
    /// overflowing.
    pub open spec fn within_limits(self) -> bool {
        &&& self.depth <= self.max_depth
        &&& self.max_depth <= MAX_JSON_DEPTH
        &&& self.elements <= MAX_JSON_ELEMENTS
    }

    pub fn new() -> (s: JsonScanState)
        ensures
            s == JsonScanState::initial(),
    {
        JsonScanState { depth: 0, max_depth: 0, elements: 0, in_string: false, escape: false }
    }
}

/// The state after an outside-string byte, before the element limit is checked.
pub open spec fn structural_step(st: JsonScanState, b: u8) -> core::result::Result<
    JsonScanState,
    JsonLimitBreach,
> {
    if b == 0x22 {
        Ok(JsonScanState { in_string: true, ..st })
    } else if b == 0x7b || b == 0x5b {
        let depth = (st.depth + 1) as usize;
        let max_depth = if depth > st.max_depth { depth } else { st.max_depth };
        if max_depth > MAX_JSON_DEPTH {
            Err(JsonLimitBreach::Depth)
        } else {
            Ok(JsonScanState { depth, max_depth, elements: (st.elements + 1) as usize, ..st })
        }
    } else if b == 0x7d || b == 0x5d {
        Ok(JsonScanState { depth: if st.depth == 0 { 0 } else { (st.depth - 1) as usize }, ..st })
    } else if b == 0x3a || b == 0x2c {
        Ok(JsonScanState { elements: (st.elements + 1) as usize, ..st })
    } else {
        Ok(st)
    }
}

/// One byte of the scan: inside a string only quotes and escapes matter;
/// outside, containers open and close and colons and commas add elements.
pub open spec fn json_step(st: JsonScanState, b: u8) -> core::result::Result<
    JsonScanState,
    JsonLimitBreach,
> {
    if st.escape {
        Ok(JsonScanState { escape: false, ..st })
    } else if st.in_string {
        if b == 0x5c {
            Ok(JsonScanState { escape: true, ..st })
        } else if b == 0x22 {
            Ok(JsonScanState { in_string: false, ..st })
        } else {
            Ok(st)
        }
    } else {
        match structural_step(st, b) {
            Ok(next) => if next.elements > MAX_JSON_ELEMENTS {
                Err(JsonLimitBreach::Elements)
            } else {
                Ok(next)
            },
            Err(e) => Err(e),
        }
    }
}

/// The scan of a whole input: the first breach, or the state at the end.
pub open spec fn json_scan(input: Seq<u8>) -> core::result::Result<JsonScanState, JsonLimitBreach>
    decreases input.len(),
{
    if input.len() == 0 {
        Ok(JsonScanState::initial())
    } else {
        match json_scan(input.drop_last()) {
            Ok(st) => json_step(st, input.last()),
            Err(e) => Err(e),
        }
    }
}

/// Validate JSON input against the depth and element-count limits.
///
/// Braces and brackets inside string literals, escaped quotes included, are
/// not counted.
pub fn validate_json_limits(input: &[u8]) -> (r: Result<()>)
    ensures
        r is Ok <==> json_scan(input@) is Ok,
        r matches Err(e) ==> e.kind == ErrorKind::Parse,
{
    let mut state = JsonScanState::new();
    let mut i: usize = 0;
    proof {
        assert(input@.take(0) =~= seq![]);
    }
    while i < input.len()
        invariant
            i <= input@.len(),
            json_scan(input@.take(i as int)) == Ok::<JsonScanState, JsonLimitBreach>(state),
            state.within_limits(),
        decreases input@.len() - i,
    {
        proof {
            assert(input@.take(i + 1).drop_last() =~= input@.take(i as int));
        }
        match state.consume(input[i]) {
            Ok(()) => {},
            Err(e) => {
                proof {
                    lemma_breach_persists(input@, i + 1);
                }
                return Err(e);
            },
        }
        i = i + 1;
    }
    proof {
        assert(input@.take(input@.len() as int) =~= input@);
    }
    Ok(())
}

/// Once a prefix breaches a limit, so does every longer input.
proof fn lemma_breach_persists(input: Seq<u8>, i: int)
    requires
        0 <= i <= input.len(),
        json_scan(input.take(i)) is Err,
    ensures
        json_scan(input) is Err,
    decreases input.len() - i,
{
    if i < input.len() {
        assert(input.take(i + 1).drop_last() =~= input.take(i));
        lemma_breach_persists(input, i + 1);
    } else {
        assert(input.take(i) =~= input);
    }
}

impl JsonScanState {
    /// Consume one byte, refusing it when it takes a count past its limit.
    pub fn consume(&mut self, byte: u8) -> (r: Result<()>)
        requires
            old(self).within_limits(),
        ensures
            match json_step(*old(self), byte) {
                Ok(next) => r is Ok && *final(self) == next,
                Err(_) => r is Err,
            },
            r is Ok ==> final(self).within_limits(),
            r matches Err(e) ==> e.kind == ErrorKind::Parse,
    {
        if self.escape {
            self.escape = false;
            return Ok(());
        }
        if self.in_string {
            self.consume_in_string(byte);
            return Ok(());
        }
        if byte == 0x22 {
            self.in_string = true;
        } else if byte == 0x7b || byte == 0x5b {
            self.open_container()?;
        } else if byte == 0x7d || byte == 0x5d {
            self.depth = if self.depth == 0 { 0 } else { self.depth - 1 };
        } else if byte == 0x3a || byte == 0x2c {
            self.elements = self.elements + 1;
        }
        self.enforce_element_limit()
    }

    fn consume_in_string(&mut self, byte: u8)
        ensures
            *final(self) == (if byte == 0x5c {
                JsonScanState { escape: true, ..*old(self) }
            } else if byte == 0x22 {
                JsonScanState { in_string: false, ..*old(self) }
            } else {
                *old(self)
            }),
    {
        if byte == 0x5c {
            self.escape = true;
        } else if byte == 0x22 {
            self.in_string = false;
        }
    }

    fn open_container(&mut self) -> (r: Result<()>)
        requires
            old(self).within_limits(),
        ensures
            match structural_step(*old(self), 0x7b) {
                Ok(next) => r is Ok && *final(self) == next,
                Err(_) => r is Err,
            },
            r matches Err(e) ==> e.kind == ErrorKind::Parse,
    {
        self.depth = self.depth + 1;
        if self.depth > self.max_depth {
            self.max_depth = self.depth;
        }
        self.elements = self.elements + 1;
        if self.max_depth > MAX_JSON_DEPTH {
            return Err(build_depth_limit_error(self.max_depth));
        }
        Ok(())
    }

    fn enforce_element_limit(&self) -> (r: Result<()>)
        ensures
            r is Ok <==> self.elements <= MAX_JSON_ELEMENTS,
            r matches Err(e) ==> e.kind == ErrorKind::Parse,
    {
        if self.elements > MAX_JSON_ELEMENTS {
            return Err(build_element_limit_error(self.elements));
        }
        Ok(())
    }
}

fn build_depth_limit_error(max_depth: usize) -> (e: Error)
    ensures
        e.kind == ErrorKind::Parse,
{
    let mut message = owned("JSON nesting depth exceeds limit (");
    push_str(&mut message, format_decimal(max_depth as u64).as_str());
    push_str(&mut message, " > ");
    push_str(&mut message, format_decimal(MAX_JSON_DEPTH as u64).as_str());
    push_str(&mut message, ")");
    Error::build_parse_error(message)
}

fn build_element_limit_error(elements: usize) -> (e: Error)
    ensures
        e.kind == ErrorKind::Parse,
{
    let mut message = owned("JSON element count exceeds limit (");
    push_str(&mut message, format_decimal(elements as u64).as_str());
    push_str(&mut message, " > ");
    push_str(&mut message, format_decimal(MAX_JSON_ELEMENTS as u64).as_str());
    push_str(&mut message, ")");
    Error::build_parse_error(message)
}

/// Every input the scan accepts nests at most `MAX_JSON_DEPTH` deep and holds
/// at most `MAX_JSON_ELEMENTS` elements.
pub proof fn lemma_accepted_input_within_limits(input: Seq<u8>)
    requires
        json_scan(input) is Ok,
    ensures
        json_scan(input)->Ok_0.within_limits(),
    decreases input.len(),
{
    if input.len() > 0 {
        lemma_accepted_input_within_limits(input.drop_last());
    }
}

/// Bytes inside a string literal never open or close a container: scanning a
/// byte while inside a string leaves the depth and the element count as they
/// were.
pub proof fn lemma_string_bytes_are_not_structure(st: JsonScanState, b: u8)
    requires
        st.in_string || st.escape,
    ensures
        json_step(st, b) matches Ok(next) && next.depth == st.depth && next.elements
            == st.elements && next.max_depth == st.max_depth,
{
}

/// A closing brace or bracket outside a string ends the innermost open
/// container: the depth drops by one (never below zero), the deepest level
/// reached and the element count stay as they were, and the byte is never
/// refused.
pub proof fn lemma_closing_lowers_depth(st: JsonScanState, b: u8)
    requires
        !st.in_string,
        !st.escape,
        b == 0x7d || b == 0x5d,
        st.elements <= MAX_JSON_ELEMENTS,
    ensures
        json_step(st, b) matches Ok(next) && next.depth == (if st.depth == 0 {
            0
        } else {
            st.depth - 1
        }) && next.max_depth == st.max_depth && next.elements == st.elements && !next.in_string
            && !next.escape,
{
}

/// Opening a container and closing it again, outside a string, returns to
/// the depth the scan was at: sibling containers never add up.
pub proof fn lemma_open_then_close_returns_to_depth(st: JsonScanState, open: u8, close: u8)
    requires
        !st.in_string,
        !st.escape,
        st.within_limits(),
        st.depth < MAX_JSON_DEPTH,
        st.elements < MAX_JSON_ELEMENTS,
        open == 0x7b || open == 0x5b,
        close == 0x7d || close == 0x5d,
    ensures
        json_step(st, open) matches Ok(mid) && json_step(mid, close) matches Ok(next) && next.depth
            == st.depth && next.elements == st.elements + 1 && next.max_depth == (if st.depth + 1
            > st.max_depth {
            st.depth + 1
        } else {
            st.max_depth as int
        }),
{
}

/// The bytes of `[` followed by `count` empty objects `{}` side by side.
pub open spec fn sibling_objects(count: nat) -> Seq<u8>
    decreases count,
{
    if count == 0 {
        seq![0x5bu8]
    } else {
        sibling_objects((count - 1) as nat).push(0x7bu8).push(0x7du8)
    }
}

proof fn lemma_sibling_objects_scan(count: nat)
    requires
        count + 1 <= MAX_JSON_ELEMENTS,
    ensures
        json_scan(sibling_objects(count)) == Ok::<JsonScanState, JsonLimitBreach>(
            JsonScanState {
                depth: 1,
                max_depth: if count == 0 {
                    1
                } else {
                    2
                },
                elements: (count + 1) as usize,
                in_string: false,
                escape: false,
            },
        ),
    decreases count,
{
    let s = sibling_objects(count);
    if count == 0 {
        assert(s == seq![0x5bu8]);
        assert(s.len() == 1);
        assert(s.drop_last() =~= Seq::<u8>::empty());
        assert(json_scan(Seq::<u8>::empty()) == Ok::<JsonScanState, JsonLimitBreach>(
            JsonScanState::initial(),
        ));
        assert(s.last() == 0x5bu8);
        assert(json_scan(s) == json_step(JsonScanState::initial(), 0x5bu8));
    } else {
        lemma_sibling_objects_scan((count - 1) as nat);
        let prev = sibling_objects((count - 1) as nat);
        let opened = prev.push(0x7bu8);
        assert(s.drop_last() =~= opened);
        assert(s.last() == 0x7du8);
        assert(opened.drop_last() =~= prev);
        assert(opened.last() == 0x7bu8);
        let st = json_scan(prev)->Ok_0;
        let mid = JsonScanState { depth: 2, max_depth: 2, elements: (count + 1) as usize, ..st };
        assert(structural_step(st, 0x7bu8) == Ok::<JsonScanState, JsonLimitBreach>(mid));
        assert(json_scan(opened) == json_step(st, 0x7bu8));
        assert(json_scan(opened) == Ok::<JsonScanState, JsonLimitBreach>(mid));
        assert(json_scan(s) == json_step(mid, 0x7du8));
    }
}

/// An array of empty objects side by side is accepted whatever their number,
/// as long as the element limit holds: it nests only two deep.
pub proof fn lemma_sibling_containers_are_accepted(count: nat)
    requires
        count + 1 <= MAX_JSON_ELEMENTS,
    ensures
        json_scan(sibling_objects(count).push(0x5du8)) is Ok,
{
    lemma_sibling_objects_scan(count);
    assert(sibling_objects(count).push(0x5du8).drop_last() == sibling_objects(count));
}

} // verus!
