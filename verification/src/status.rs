//! Payment and refund lifecycles: wire values, statuses and the transitions
//! between them.

use vstd::prelude::*;
use vstd::string::*;
use crate::error::{message_with, ErrorKind, ServiceError};
use crate::text::{is_ws, lower, lower_char, norm, normalized, opt_str_view, opt_text, optional_text, str_eq, trim_end, trim_start, trimmed};

verus! {

#[derive(Clone, Copy, Debug, PartialEq, Eq, Structural)]
pub enum PaymentStatus {
    Created,
    Pending,
    Succeeded,
    Failed,
    Closed,
    Refunding,
    Refunded,
}

#[derive(Clone, Copy, Debug, PartialEq, Eq, Structural)]
pub enum RefundStatus {
    Requested,
    Processing,
    Succeeded,
    Failed,
    Closed,
}

/// A requested change of payment status.
#[derive(Clone, Copy, Debug, PartialEq, Eq, Structural)]
pub struct PaymentTransition {
    pub from: PaymentStatus,
    pub to: PaymentStatus,
}

/// A requested change of refund status.
#[derive(Clone, Copy, Debug, PartialEq, Eq, Structural)]
pub struct RefundTransition {
    pub from: RefundStatus,
    pub to: RefundStatus,
}

/// The payment status that a wire value names, after trimming and ASCII
/// lowercasing, with its accepted aliases.
pub open spec fn payment_status_of(w: Seq<char>) -> Option<PaymentStatus> {
    let n = norm(w);
    if n == "created"@ {
        Some(PaymentStatus::Created)
    } else if n == "pending"@ || n == "processing"@ {
        Some(PaymentStatus::Pending)
    } else if n == "succeeded"@ || n == "success"@ || n == "paid"@ {
        Some(PaymentStatus::Succeeded)
    } else if n == "failed"@ {
        Some(PaymentStatus::Failed)
    } else if n == "canceled"@ || n == "cancelled"@ || n == "closed"@ {
        Some(PaymentStatus::Closed)
    } else if n == "refunding"@ {
        Some(PaymentStatus::Refunding)
    } else if n == "refunded"@ {
        Some(PaymentStatus::Refunded)
    } else {
        None
    }
}

/// The persisted wire value of each payment status.
pub open spec fn payment_wire(s: PaymentStatus) -> Seq<char> {
    match s {
        PaymentStatus::Created => "created"@,
        PaymentStatus::Pending => "pending"@,
        PaymentStatus::Succeeded => "succeeded"@,
        PaymentStatus::Failed => "failed"@,
        PaymentStatus::Closed => "canceled"@,
        PaymentStatus::Refunding => "refunding"@,
        PaymentStatus::Refunded => "refunded"@,
    }
}

/// The refund status that a wire value names, after trimming and ASCII
/// lowercasing, with its accepted aliases.
pub open spec fn refund_status_of(w: Seq<char>) -> Option<RefundStatus> {
    let n = norm(w);
    if n == "submitted"@ || n == "requested"@ {
        Some(RefundStatus::Requested)
    } else if n == "processing"@ {
        Some(RefundStatus::Processing)
    } else if n == "succeeded"@ || n == "success"@ {
        Some(RefundStatus::Succeeded)
    } else if n == "failed"@ {
        Some(RefundStatus::Failed)
    } else if n == "closed"@ || n == "canceled"@ || n == "cancelled"@ {
        Some(RefundStatus::Closed)
    } else {
        None
    }
}

/// The persisted wire value of each refund status.
pub open spec fn refund_wire(s: RefundStatus) -> Seq<char> {
    match s {
        RefundStatus::Requested => "submitted"@,
        RefundStatus::Processing => "processing"@,
        RefundStatus::Succeeded => "succeeded"@,
        RefundStatus::Failed => "failed"@,
        RefundStatus::Closed => "closed"@,
    }
}

/// The payment lifecycle: the only status changes a payment may make.
pub open spec fn payment_step(from: PaymentStatus, to: PaymentStatus) -> bool {
    match (from, to) {
        (PaymentStatus::Created, PaymentStatus::Pending) => true,
        (PaymentStatus::Pending, PaymentStatus::Succeeded) => true,
        (PaymentStatus::Pending, PaymentStatus::Failed) => true,
        (PaymentStatus::Pending, PaymentStatus::Closed) => true,
        (PaymentStatus::Succeeded, PaymentStatus::Refunding) => true,
        (PaymentStatus::Refunding, PaymentStatus::Refunded) => true,
        (PaymentStatus::Refunding, PaymentStatus::Failed) => true,
        _ => false,
    }
}

/// The refund lifecycle: the only status changes a refund may make.
pub open spec fn refund_step(from: RefundStatus, to: RefundStatus) -> bool {
    match (from, to) {
        (RefundStatus::Requested, RefundStatus::Processing) => true,
        (RefundStatus::Requested, RefundStatus::Failed) => true,
        (RefundStatus::Processing, RefundStatus::Succeeded) => true,
        (RefundStatus::Processing, RefundStatus::Failed) => true,
        (RefundStatus::Processing, RefundStatus::Closed) => true,
        (RefundStatus::Requested, RefundStatus::Closed) => true,
        _ => false,
    }
}

/// The outcome of validating a payment change given by wire values: which
/// error comes, or `None` when the change is accepted.
pub open spec fn payment_wire_check(from: Seq<char>, to: Seq<char>) -> Option<(ErrorKind, Seq<char>)> {
    match payment_status_of(from) {
        None => Some((ErrorKind::Validation, "unknown payment status: "@ + norm(from))),
        Some(a) => match payment_status_of(to) {
            None => Some((ErrorKind::Validation, "unknown payment status: "@ + norm(to))),
            Some(b) => if a == b || payment_step(a, b) {
                None
            } else {
                Some((ErrorKind::InvalidState, "invalid payment status transition"@))
            },
        },
    }
}

/// The outcome of validating a refund change given by wire values; an
/// absent or blank `from` stands for a refund being created.
pub open spec fn refund_wire_check(from: Option<Seq<char>>, to: Seq<char>) -> Option<(ErrorKind, Seq<char>)> {
    match refund_status_of(to) {
        None => Some((ErrorKind::Validation, "unknown refund status: "@ + norm(to))),
        Some(b) => match opt_text(from) {
            None => None,
            Some(f) => match refund_status_of(f) {
                None => Some((ErrorKind::Validation, "unknown refund status: "@ + norm(f))),
                Some(a) => if a == b || refund_step(a, b) {
                    None
                } else {
                    Some((ErrorKind::InvalidState, "invalid refund status transition"@))
                },
            },
        },
    }
}

/// Whether a result matches an expected error outcome (`None`: success).
pub open spec fn outcome_is<T>(r: Result<T, ServiceError>, expected: Option<(ErrorKind, Seq<char>)>) -> bool {
    match expected {
        None => r is Ok,
        Some((kind, message)) => r matches Err(e) && e.kind == kind && e.message@ == message,
    }
}

/// Exact equality of a text with a literal.
fn is(s: &String, lit: &str) -> (r: bool)
    ensures
        r == (s@ == lit@),
{
    str_eq(s.as_str(), lit)
}

impl PaymentStatus {
    /// Parses a persisted or provider wire value.
    pub fn from_wire(value: &str) -> (r: Result<PaymentStatus, ServiceError>)
        ensures
            match payment_status_of(value@) {
                Some(s) => r == Ok::<PaymentStatus, ServiceError>(s),
                None => r matches Err(e) && e.kind == ErrorKind::Validation && e.message@
                    == "unknown payment status: "@ + norm(value@),
            },
    {
        let n = normalized(value);
        if is(&n, "created") {
            Ok(PaymentStatus::Created)
        } else if is(&n, "pending") || is(&n, "processing") {
            Ok(PaymentStatus::Pending)
        } else if is(&n, "succeeded") || is(&n, "success") || is(&n, "paid") {
            Ok(PaymentStatus::Succeeded)
        } else if is(&n, "failed") {
            Ok(PaymentStatus::Failed)
        } else if is(&n, "canceled") || is(&n, "cancelled") || is(&n, "closed") {
            Ok(PaymentStatus::Closed)
        } else if is(&n, "refunding") {
            Ok(PaymentStatus::Refunding)
        } else if is(&n, "refunded") {
            Ok(PaymentStatus::Refunded)
        } else {
            Err(ServiceError { kind: ErrorKind::Validation, message: message_with("unknown payment status: ", n.as_str()) })
        }
    }

    /// The persisted wire value.
    pub fn as_wire(self) -> (r: &'static str)
        ensures
            r@ == payment_wire(self),
    {
        match self {
            PaymentStatus::Created => "created",
            PaymentStatus::Pending => "pending",
            PaymentStatus::Succeeded => "succeeded",
            PaymentStatus::Failed => "failed",
            PaymentStatus::Closed => "canceled",
            PaymentStatus::Refunding => "refunding",
            PaymentStatus::Refunded => "refunded",
        }
    }
}

impl RefundStatus {
    /// Parses a persisted or provider wire value.
    pub fn from_wire(value: &str) -> (r: Result<RefundStatus, ServiceError>)
        ensures
            match refund_status_of(value@) {
                Some(s) => r == Ok::<RefundStatus, ServiceError>(s),
                None => r matches Err(e) && e.kind == ErrorKind::Validation && e.message@
                    == "unknown refund status: "@ + norm(value@),
            },
    {
        let n = normalized(value);
        if is(&n, "submitted") || is(&n, "requested") {
            Ok(RefundStatus::Requested)
        } else if is(&n, "processing") {
            Ok(RefundStatus::Processing)
        } else if is(&n, "succeeded") || is(&n, "success") {
            Ok(RefundStatus::Succeeded)
        } else if is(&n, "failed") {
            Ok(RefundStatus::Failed)
        } else if is(&n, "closed") || is(&n, "canceled") || is(&n, "cancelled") {
            Ok(RefundStatus::Closed)
        } else {
            Err(ServiceError { kind: ErrorKind::Validation, message: message_with("unknown refund status: ", n.as_str()) })
        }
    }

    /// The persisted wire value.
    pub fn as_wire(self) -> (r: &'static str)
        ensures
            r@ == refund_wire(self),
    {
        match self {
            RefundStatus::Requested => "submitted",
            RefundStatus::Processing => "processing",
            RefundStatus::Succeeded => "succeeded",
            RefundStatus::Failed => "failed",
            RefundStatus::Closed => "closed",
        }
    }
}

impl PaymentTransition {
    pub fn new(from: PaymentStatus, to: PaymentStatus) -> (r: Self)
        ensures
            r.from == from,
            r.to == to,
    {
        PaymentTransition { from, to }
    }

    /// Accepts exactly the steps of the payment lifecycle.
    pub fn validate(&self) -> (r: Result<(), ServiceError>)
        ensures
            r is Ok <==> payment_step(self.from, self.to),
            r matches Err(e) ==> e.kind == ErrorKind::InvalidState && e.message@
                == "invalid payment status transition"@,
    {
        match (self.from, self.to) {
            (PaymentStatus::Created, PaymentStatus::Pending)
            | (PaymentStatus::Pending, PaymentStatus::Succeeded)
            | (PaymentStatus::Pending, PaymentStatus::Failed)
            | (PaymentStatus::Pending, PaymentStatus::Closed)
            | (PaymentStatus::Succeeded, PaymentStatus::Refunding)
            | (PaymentStatus::Refunding, PaymentStatus::Refunded)
            | (PaymentStatus::Refunding, PaymentStatus::Failed) => Ok(()),
            _ => Err(ServiceError::invalid_state("invalid payment status transition")),
        }
    }
}

impl RefundTransition {
    pub fn new(from: RefundStatus, to: RefundStatus) -> (r: Self)
        ensures
            r.from == from,
            r.to == to,
    {
        RefundTransition { from, to }
    }

    /// Accepts exactly the steps of the refund lifecycle.
    pub fn validate(&self) -> (r: Result<(), ServiceError>)
        ensures
            r is Ok <==> refund_step(self.from, self.to),
            r matches Err(e) ==> e.kind == ErrorKind::InvalidState && e.message@
                == "invalid refund status transition"@,
    {
        match (self.from, self.to) {
            (RefundStatus::Requested, RefundStatus::Processing)
            | (RefundStatus::Requested, RefundStatus::Failed)
            | (RefundStatus::Processing, RefundStatus::Succeeded)
            | (RefundStatus::Processing, RefundStatus::Failed)
            | (RefundStatus::Processing, RefundStatus::Closed)
            | (RefundStatus::Requested, RefundStatus::Closed) => Ok(()),
            _ => Err(ServiceError::invalid_state("invalid refund status transition")),
        }
    }
}

/// Validates a payment status change given by persisted wire values
/// (`pending`, `canceled`, ...); staying in the same status is accepted.
pub fn validate_payment_wire_transition(from: &str, to: &str) -> (r: Result<(), ServiceError>)
    ensures
        outcome_is(r, payment_wire_check(from@, to@)),
{
    let from_status = PaymentStatus::from_wire(from)?;
    let to_status = PaymentStatus::from_wire(to)?;
    if from_status == to_status {
        return Ok(());
    }
    PaymentTransition::new(from_status, to_status).validate()
}

/// Validates a refund status change; `from: None` (or a blank value) stands
/// for a refund row being created.
pub fn validate_refund_wire_transition(from: Option<&str>, to: &str) -> (r: Result<(), ServiceError>)
    ensures
        outcome_is(r, refund_wire_check(opt_str_view(from), to@)),
{
    let to_status = RefundStatus::from_wire(to)?;
    let from = match optional_text(from) {
        Some(f) => f,
        None => return Ok(()),
    };
    let from_status = RefundStatus::from_wire(from.as_str())?;
    if from_status == to_status {
        return Ok(());
    }
    RefundTransition::new(from_status, to_status).validate()
}

/// A word of lowercase letters (and `_`) is its own normal form.
pub proof fn lemma_norm_of_word(s: Seq<char>)
    requires
        s.len() > 0,
        forall|i: int| 0 <= i < s.len() ==> ('a' <= #[trigger] s[i] && s[i] <= 'z') || s[i] == '_',
    ensures
        norm(s) == s,
{
    assert(trim_start(s) == s);
    assert(trim_end(s) == s);
    assert(lower(s) =~= s);
}

proof fn lemma_lower_char_keeps_ws(c: char)
    ensures
        is_ws(lower_char(c)) == is_ws(c),
{
}

proof fn lemma_lower_trim_start(w: Seq<char>)
    ensures
        lower(trim_start(w)) == trim_start(lower(w)),
    decreases w.len(),
{
    lemma_lower_char_keeps_ws(w[0]);
    if w.len() > 0 && is_ws(w[0]) {
        assert(lower(w).drop_first() =~= lower(w.drop_first()));
        lemma_lower_trim_start(w.drop_first());
    }
}

proof fn lemma_lower_trim_end(w: Seq<char>)
    ensures
        lower(trim_end(w)) == trim_end(lower(w)),
    decreases w.len(),
{
    if w.len() > 0 {
        lemma_lower_char_keeps_ws(w.last());
        assert(lower(w).last() == lower_char(w.last()));
        if is_ws(w.last()) {
            assert(lower(w).drop_last() =~= lower(w.drop_last()));
            lemma_lower_trim_end(w.drop_last());
        }
    }
}

proof fn lemma_trim_start_ws_head(c: char, x: Seq<char>)
    requires
        is_ws(c),
    ensures
        trim_start(seq![c] + x) == trim_start(x),
{
    assert((seq![c] + x).drop_first() =~= x);
}

proof fn lemma_trim_end_ws_tail(x: Seq<char>, c: char)
    requires
        is_ws(c),
    ensures
        trim_end(x + seq![c]) == trim_end(x),
{
    assert((x + seq![c]).drop_last() =~= x);
}

proof fn lemma_trim_start_append(x: Seq<char>, y: Seq<char>)
    ensures
        trim_start(x).len() > 0 ==> trim_start(x + y) == trim_start(x) + y,
        trim_start(x).len() == 0 ==> trim_start(x + y) == trim_start(y),
    decreases x.len(),
{
    if x.len() == 0 {
        assert(x + y =~= y);
    } else {
        assert((x + y)[0] == x[0]);
        assert((x + y).drop_first() =~= x.drop_first() + y);
        if is_ws(x[0]) {
            lemma_trim_start_append(x.drop_first(), y);
        }
    }
}

/// Reading a status ignores surrounding white space and ASCII case: texts
/// with the same trimmed, lowercased form name the same payment and refund
/// status; two texts that differ only in the ASCII case of their letters
/// have the same such form, and so does a text padded with white space on
/// both sides.
pub proof fn lemma_status_reading_ignores_padding_and_case(w: Seq<char>, v: Seq<char>, c1: char, c2: char)
    ensures
        norm(w) == norm(v) ==> payment_status_of(w) == payment_status_of(v) && refund_status_of(w)
            == refund_status_of(v),
        lower(w) == lower(v) ==> norm(w) == norm(v),
        is_ws(c1) && is_ws(c2) ==> norm(seq![c1] + w + seq![c2]) == norm(w),
{
    lemma_lower_trim_start(w);
    lemma_lower_trim_end(trim_start(w));
    lemma_lower_trim_start(v);
    lemma_lower_trim_end(trim_start(v));
    assert(norm(w) == trimmed(lower(w)));
    assert(norm(v) == trimmed(lower(v)));
    if is_ws(c1) && is_ws(c2) {
        let p = seq![c1] + w + seq![c2];
        assert(p =~= seq![c1] + (w + seq![c2]));
        lemma_trim_start_ws_head(c1, w + seq![c2]);
        lemma_trim_start_append(w, seq![c2]);
        if trim_start(w).len() > 0 {
            lemma_trim_end_ws_tail(trim_start(w), c2);
        } else {
            lemma_trim_start_ws_head(c2, Seq::empty());
            assert(seq![c2] + Seq::<char>::empty() =~= seq![c2]);
            assert(trim_start(Seq::<char>::empty()) == Seq::<char>::empty());
        }
        assert(trimmed(p) == trimmed(w));
    }
}

/// Each payment status is read back from its own wire value.
pub proof fn lemma_payment_wire_round_trip(s: PaymentStatus)
    ensures
        payment_status_of(payment_wire(s)) == Some(s),
{
    reveal_strlit("created");
    reveal_strlit("pending");
    reveal_strlit("processing");
    reveal_strlit("succeeded");
    reveal_strlit("success");
    reveal_strlit("paid");
    reveal_strlit("failed");
    reveal_strlit("canceled");
    reveal_strlit("cancelled");
    reveal_strlit("closed");
    reveal_strlit("refunding");
    reveal_strlit("refunded");
    lemma_norm_of_word(payment_wire(s));
}

/// Each refund status is read back from its own wire value.
pub proof fn lemma_refund_wire_round_trip(s: RefundStatus)
    ensures
        refund_status_of(refund_wire(s)) == Some(s),
{
    reveal_strlit("submitted");
    reveal_strlit("requested");
    reveal_strlit("processing");
    reveal_strlit("succeeded");
    reveal_strlit("success");
    reveal_strlit("failed");
    reveal_strlit("closed");
    reveal_strlit("canceled");
    reveal_strlit("cancelled");
    lemma_norm_of_word(refund_wire(s));
    match s {
        RefundStatus::Requested => {},
        RefundStatus::Processing => assert("processing"@ != "submitted"@),
        RefundStatus::Succeeded => {
            assert("succeeded"@[2] != "submitted"@[2]);
            assert("succeeded"@ != "requested"@);
            assert("succeeded"@ != "processing"@);
        },
        RefundStatus::Failed => {
            assert("failed"@ != "submitted"@);
            assert("failed"@ != "requested"@);
            assert("failed"@ != "processing"@);
            assert("failed"@ != "succeeded"@);
            assert("failed"@ != "success"@);
        },
        RefundStatus::Closed => {
            assert("closed"@ != "submitted"@);
            assert("closed"@ != "requested"@);
            assert("closed"@ != "processing"@);
            assert("closed"@ != "succeeded"@);
            assert("closed"@ != "success"@);
            assert("closed"@ != "failed"@);
        },
    }
}

/// Position of a payment status along its lifecycle.
pub open spec fn payment_rank(s: PaymentStatus) -> int {
    match s {
        PaymentStatus::Created => 0,
        PaymentStatus::Pending => 1,
        PaymentStatus::Succeeded => 2,
        PaymentStatus::Refunding => 3,
        PaymentStatus::Failed => 4,
        PaymentStatus::Closed => 4,
        PaymentStatus::Refunded => 4,
    }
}

/// Position of a refund status along its lifecycle.
pub open spec fn refund_rank(s: RefundStatus) -> int {
    match s {
        RefundStatus::Requested => 0,
        RefundStatus::Processing => 1,
        RefundStatus::Succeeded => 2,
        RefundStatus::Failed => 2,
        RefundStatus::Closed => 2,
    }
}

/// Every payment step moves forward along the lifecycle, so a payment can
/// never return to an earlier status, and failed, closed and refunded
/// payments never change again.
pub proof fn lemma_payment_lifecycle_moves_forward(from: PaymentStatus, to: PaymentStatus)
    ensures
        payment_step(from, to) ==> payment_rank(from) < payment_rank(to),
        (from == PaymentStatus::Failed || from == PaymentStatus::Closed || from
            == PaymentStatus::Refunded) ==> !payment_step(from, to),
{
}

/// Every refund step moves forward along the lifecycle; succeeded, failed and
/// closed refunds never change again.
pub proof fn lemma_refund_lifecycle_moves_forward(from: RefundStatus, to: RefundStatus)
    ensures
        refund_step(from, to) ==> refund_rank(from) < refund_rank(to),
        (from == RefundStatus::Succeeded || from == RefundStatus::Failed || from
            == RefundStatus::Closed) ==> !refund_step(from, to),
{
}

/// Staying in a known status is always an accepted change.
pub proof fn lemma_wire_same_status_accepted(w: Seq<char>, v: Seq<char>)
    ensures
        payment_status_of(w) is Some && payment_status_of(w) == payment_status_of(v)
            ==> payment_wire_check(w, v) is None,
        refund_status_of(w) is Some && opt_text(Some(v)) == Some(trimmed(v)) && refund_status_of(
            trimmed(v),
        ) == refund_status_of(w) ==> refund_wire_check(Some(v), w) is None,
{
}

/// The accepted payment steps are exactly the seven of the lifecycle: a
/// created payment can only become pending, only a pending payment can
/// succeed, a pending payment can succeed, fail or close, a succeeded payment
/// can only start refunding, a refunding payment can only end refunded or
/// failed, and failed, closed and refunded payments never change.
pub proof fn lemma_payment_steps(a: PaymentStatus, b: PaymentStatus)
    ensures
        payment_step(PaymentStatus::Created, b) <==> b == PaymentStatus::Pending,
        payment_step(a, PaymentStatus::Succeeded) <==> a == PaymentStatus::Pending,
        payment_step(PaymentStatus::Pending, b) <==> (b == PaymentStatus::Succeeded || b == PaymentStatus::Failed
            || b == PaymentStatus::Closed),
        payment_step(PaymentStatus::Succeeded, b) <==> b == PaymentStatus::Refunding,
        payment_step(PaymentStatus::Refunding, b) <==> (b == PaymentStatus::Refunded || b
            == PaymentStatus::Failed),
        payment_step(a, PaymentStatus::Refunded) <==> a == PaymentStatus::Refunding,
        payment_step(a, PaymentStatus::Refunding) <==> a == PaymentStatus::Succeeded,
        !payment_step(PaymentStatus::Failed, b) && !payment_step(PaymentStatus::Closed, b)
            && !payment_step(PaymentStatus::Refunded, b),
        !payment_step(a, PaymentStatus::Created),
{
}

/// The accepted refund steps are exactly the six of the lifecycle: a
/// requested refund can start processing, fail or close; a processing
/// refund can succeed, fail or close; only a processing refund can succeed;
/// succeeded, failed and closed refunds never change.
pub proof fn lemma_refund_steps(a: RefundStatus, b: RefundStatus)
    ensures
        refund_step(RefundStatus::Requested, b) <==> (b == RefundStatus::Processing || b == RefundStatus::Failed
            || b == RefundStatus::Closed),
        refund_step(RefundStatus::Processing, b) <==> (b == RefundStatus::Succeeded || b == RefundStatus::Failed
            || b == RefundStatus::Closed),
        refund_step(a, RefundStatus::Succeeded) <==> a == RefundStatus::Processing,
        refund_step(a, RefundStatus::Processing) <==> a == RefundStatus::Requested,
        !refund_step(RefundStatus::Succeeded, b) && !refund_step(RefundStatus::Failed, b)
            && !refund_step(RefundStatus::Closed, b),
        !refund_step(a, RefundStatus::Requested),
{
}

/// The accepted spellings of each status, in any ASCII case and padding:
/// `processing` is a pending payment, `success` and `paid` a succeeded one,
/// `canceled`, `cancelled` and `closed` a closed one; `requested` and
/// `submitted` a requested refund, `success` a succeeded refund, and
/// `canceled`, `cancelled` and `closed` a closed one.
pub proof fn lemma_status_aliases(w: Seq<char>)
    ensures
        norm(w) == "pending"@ || norm(w) == "processing"@ ==> payment_status_of(w) == Some(PaymentStatus::Pending),
        norm(w) == "succeeded"@ || norm(w) == "success"@ || norm(w) == "paid"@ ==> payment_status_of(w) == Some(
            PaymentStatus::Succeeded,
        ),
        norm(w) == "failed"@ ==> payment_status_of(w) == Some(PaymentStatus::Failed),
        norm(w) == "canceled"@ || norm(w) == "cancelled"@ || norm(w) == "closed"@ ==> payment_status_of(w) == Some(
            PaymentStatus::Closed,
        ),
        norm(w) == "refunding"@ ==> payment_status_of(w) == Some(PaymentStatus::Refunding),
        norm(w) == "refunded"@ ==> payment_status_of(w) == Some(PaymentStatus::Refunded),
        norm(w) == "submitted"@ || norm(w) == "requested"@ ==> refund_status_of(w) == Some(RefundStatus::Requested),
        norm(w) == "processing"@ ==> refund_status_of(w) == Some(RefundStatus::Processing),
        norm(w) == "succeeded"@ || norm(w) == "success"@ ==> refund_status_of(w) == Some(RefundStatus::Succeeded),
        norm(w) == "failed"@ ==> refund_status_of(w) == Some(RefundStatus::Failed),
        norm(w) == "canceled"@ || norm(w) == "cancelled"@ || norm(w) == "closed"@ ==> refund_status_of(w) == Some(
            RefundStatus::Closed,
        ),
        norm(w) == "paid"@ || norm(w) == "refunding"@ || norm(w) == "refunded"@ ==> refund_status_of(w) is None,
{
    reveal_strlit("created");
    reveal_strlit("pending");
    reveal_strlit("processing");
    reveal_strlit("succeeded");
    reveal_strlit("success");
    reveal_strlit("paid");
    reveal_strlit("failed");
    reveal_strlit("canceled");
    reveal_strlit("cancelled");
    reveal_strlit("closed");
    reveal_strlit("refunding");
    reveal_strlit("refunded");
    reveal_strlit("submitted");
    reveal_strlit("requested");
    assert("created"@.len() == 7);
    assert("pending"@.len() == 7);
    assert("processing"@.len() == 10);
    assert("succeeded"@.len() == 9);
    assert("success"@.len() == 7);
    assert("paid"@.len() == 4);
    assert("failed"@.len() == 6);
    assert("canceled"@.len() == 8);
    assert("cancelled"@.len() == 9);
    assert("closed"@.len() == 6);
    assert("refunding"@.len() == 9);
    assert("refunded"@.len() == 8);
    assert("submitted"@.len() == 9);
    assert("requested"@.len() == 9);
    assert("created"@[0] != "pending"@[0]);
    assert("created"@[0] != "success"@[0]);
    assert("pending"@[0] != "success"@[0]);
    assert("succeeded"@[0] != "cancelled"@[0]);
    assert("succeeded"@[0] != "refunding"@[0]);
    assert("cancelled"@[0] != "refunding"@[0]);
    assert("failed"@[0] != "closed"@[0]);
    assert("canceled"@[0] != "refunded"@[0]);
    assert("submitted"@[0] != "requested"@[0]);
    assert("submitted"@[0] != "cancelled"@[0]);
    assert("requested"@[0] != "cancelled"@[0]);
    assert("submitted"@[2] != "succeeded"@[2]);
    assert("requested"@[0] != "succeeded"@[0]);
    assert("refunding"@[0] != "submitted"@[0]);
    assert("refunding"@[2] != "requested"@[2]);
    assert("refunded"@[0] != "canceled"@[0]);
}

/// Read from wire values, a created payment that is reported succeeded, or
/// a succeeded one reported pending again, is refused as an invalid
/// transition, whatever the padding and case of the two values; a created
/// payment reported pending (or processing) is accepted.
pub proof fn lemma_payment_wire_skips_refused(w: Seq<char>, v: Seq<char>)
    ensures
        payment_status_of(w) == Some(PaymentStatus::Created) && payment_status_of(v) == Some(
            PaymentStatus::Succeeded,
        ) ==> payment_wire_check(w, v) == Some((ErrorKind::InvalidState, "invalid payment status transition"@)),
        payment_status_of(w) == Some(PaymentStatus::Succeeded) && payment_status_of(v) == Some(
            PaymentStatus::Pending,
        ) ==> payment_wire_check(w, v) == Some((ErrorKind::InvalidState, "invalid payment status transition"@)),
        payment_status_of(w) == Some(PaymentStatus::Created) && payment_status_of(v) == Some(
            PaymentStatus::Pending,
        ) ==> payment_wire_check(w, v) is None,
        norm(w) == "created"@ ==> payment_status_of(w) == Some(PaymentStatus::Created),
        norm(v) == "succeeded"@ ==> payment_status_of(v) == Some(PaymentStatus::Succeeded),
{
    reveal_strlit("created");
    reveal_strlit("pending");
    reveal_strlit("processing");
    reveal_strlit("succeeded");
    assert("succeeded"@.len() == 9);
    assert("created"@.len() == 7);
    assert("pending"@.len() == 7);
    assert("processing"@.len() == 10);
    assert("created"@[0] != "pending"@[0]);
}

} // verus!
