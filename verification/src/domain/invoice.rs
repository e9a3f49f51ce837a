//! Issuing an invoice for a service visit: its number and its totals.

use vstd::prelude::*;

use crate::domain::service_visit::ServiceVisitStatus;
use crate::text::{string_from_chars, zero_padded, zero_padded_chars, zero_padding_keeps_the_number};

verus! {

#[derive(Debug, Clone, PartialEq, Eq)]
pub struct InvoiceIssueInput {
    pub invoice_id: i64,
    pub service_visit_id: i64,
    pub service_visit_status: ServiceVisitStatus,
    pub completed_at: Option<i64>,
    pub issued_at: i64,
    pub labor_charge_fils: i64,
    pub active_part_line_totals_fils: Vec<i64>,
}

#[derive(Debug, Clone, Copy, PartialEq, Eq)]
pub enum InvoiceIssueError {
    InvalidInvoiceId,
    InvalidServiceVisitId,
    ServiceVisitNotInvoiceable,
    InvalidTimestamp,
    InvalidMoney,
    TotalOverflow,
}

#[derive(Debug, Clone, PartialEq, Eq)]
pub struct InvoiceIssue {
    invoice_number: String,
    issued_at: i64,
    labor_charge_fils: i64,
    parts_total_fils: i64,
    total_fils: i64,
}

pub struct InvoiceIssueView {
    pub invoice_number: Seq<char>,
    pub issued_at: i64,
    pub labor_charge_fils: i64,
    pub parts_total_fils: i64,
    pub total_fils: i64,
}

impl View for InvoiceIssue {
    type V = InvoiceIssueView;

    closed spec fn view(&self) -> InvoiceIssueView {
        InvoiceIssueView {
            invoice_number: self.invoice_number@,
            issued_at: self.issued_at,
            labor_charge_fils: self.labor_charge_fils,
            parts_total_fils: self.parts_total_fils,
            total_fils: self.total_fils,
        }
    }
}

/// Sum of amounts in fils.
pub open spec fn sum_fils(s: Seq<i64>) -> int
    decreases s.len(),
{
    if s.len() == 0 {
        0
    } else {
        sum_fils(s.drop_last()) + s.last()
    }
}

/// `INV-` followed by the invoice id padded with zeros to six digits.
pub open spec fn invoice_number_text(invoice_id: nat) -> Seq<char> {
    seq!['I', 'N', 'V', '-'] + zero_padded(invoice_id, 6)
}

pub open spec fn invoiceable(status: ServiceVisitStatus) -> bool {
    status == ServiceVisitStatus::ReadyForPickup || status == ServiceVisitStatus::Closed
}

pub open spec fn all_non_negative(s: Seq<i64>) -> bool {
    forall|i: int| 0 <= i < s.len() ==> #[trigger] s[i] >= 0
}

/// What `InvoiceIssue::new` gives.
pub open spec fn issue_outcome(input: InvoiceIssueInput) -> Result<InvoiceIssueView, InvoiceIssueError> {
    let lines = input.active_part_line_totals_fils@;
    if input.invoice_id <= 0 {
        Err(InvoiceIssueError::InvalidInvoiceId)
    } else if input.service_visit_id <= 0 {
        Err(InvoiceIssueError::InvalidServiceVisitId)
    } else if !invoiceable(input.service_visit_status) {
        Err(InvoiceIssueError::ServiceVisitNotInvoiceable)
    } else if input.completed_at.is_none() {
        Err(InvoiceIssueError::InvalidTimestamp)
    } else if input.issued_at < input.completed_at.unwrap() {
        Err(InvoiceIssueError::InvalidTimestamp)
    } else if input.labor_charge_fils < 0 || !all_non_negative(lines) {
        Err(InvoiceIssueError::InvalidMoney)
    } else if sum_fils(lines) > i64::MAX {
        Err(InvoiceIssueError::TotalOverflow)
    } else if input.labor_charge_fils + sum_fils(lines) > i64::MAX {
        Err(InvoiceIssueError::TotalOverflow)
    } else {
        Ok(
            InvoiceIssueView {
                invoice_number: invoice_number_text(input.invoice_id as nat),
                issued_at: input.issued_at,
                labor_charge_fils: input.labor_charge_fils,
                parts_total_fils: sum_fils(lines) as i64,
                total_fils: (input.labor_charge_fils + sum_fils(lines)) as i64,
            },
        )
    }
}

/// With no negative amount, every prefix sums to at most the whole.
proof fn lemma_prefix_sum_le(s: Seq<i64>, i: int)
    requires
        all_non_negative(s),
        0 <= i <= s.len(),
    ensures
        0 <= sum_fils(s.take(i)) <= sum_fils(s),
    decreases s.len(),
{
    if s.len() > 0 {
        let t = s.drop_last();
        assert(all_non_negative(t)) by {
            assert forall|k: int| 0 <= k < t.len() implies #[trigger] t[k] >= 0 by {
                assert(t[k] == s[k]);
            }
        }
        if i == s.len() {
            assert(s.take(i) =~= s);
            lemma_prefix_sum_le(t, t.len() as int);
            assert(t.take(t.len() as int) =~= t);
        } else {
            lemma_prefix_sum_le(t, i);
            assert(t.take(i) =~= s.take(i));
        }
    }
}

impl InvoiceIssue {
    #[verifier::loop_isolation(false)]
    pub fn new(input: InvoiceIssueInput) -> (r: Result<Self, InvoiceIssueError>)
        ensures
            match r {
                Ok(issue) => issue_outcome(input) == Ok::<InvoiceIssueView, InvoiceIssueError>(
                    issue@,
                ),
                Err(e) => issue_outcome(input) == Err::<InvoiceIssueView, InvoiceIssueError>(e),
            },
    {
        if input.invoice_id <= 0 {
            return Err(InvoiceIssueError::InvalidInvoiceId);
        }
        if input.service_visit_id <= 0 {
            return Err(InvoiceIssueError::InvalidServiceVisitId);
        }
        if !(input.service_visit_status == ServiceVisitStatus::ReadyForPickup
            || input.service_visit_status == ServiceVisitStatus::Closed) {
            return Err(InvoiceIssueError::ServiceVisitNotInvoiceable);
        }
        let completed_at = match input.completed_at {
            Some(value) => value,
            None => {
                return Err(InvoiceIssueError::InvalidTimestamp);
            },
        };
        if input.issued_at < completed_at {
            return Err(InvoiceIssueError::InvalidTimestamp);
        }
        let lines = &input.active_part_line_totals_fils;
        let n = lines.len();
        if input.labor_charge_fils < 0 {
            return Err(InvoiceIssueError::InvalidMoney);
        }
        let mut i: usize = 0;
        while i < n
            invariant
                i <= n == lines@.len(),
                forall|k: int| 0 <= k < i ==> #[trigger] lines@[k] >= 0,
            decreases n - i,
        {
            if lines[i] < 0 {
                assert(!all_non_negative(lines@)) by {
                    assert(lines@[i as int] < 0);
                }
                return Err(InvoiceIssueError::InvalidMoney);
            }
            i = i + 1;
        }
        let mut parts_total_fils: i64 = 0;
        let mut j: usize = 0;
        while j < n
            invariant
                j <= n == lines@.len(),
                all_non_negative(lines@),
                parts_total_fils == sum_fils(lines@.take(j as int)),
            decreases n - j,
        {
            assert(lines@.take(j as int) =~= lines@.take(j + 1).drop_last());
            match parts_total_fils.checked_add(lines[j]) {
                Some(value) => {
                    parts_total_fils = value;
                },
                None => {
                    proof {
                        lemma_prefix_sum_le(lines@, j + 1);
                        assert(lines@.take(j + 1).last() == lines@[j as int]);
                    }
                    return Err(InvoiceIssueError::TotalOverflow);
                },
            }
            j = j + 1;
        }
        assert(lines@.take(n as int) =~= lines@);
        let total_fils = match input.labor_charge_fils.checked_add(parts_total_fils) {
            Some(value) => value,
            None => {
                return Err(InvoiceIssueError::TotalOverflow);
            },
        };
        let mut number: Vec<char> = Vec::new();
        number.push('I');
        number.push('N');
        number.push('V');
        number.push('-');
        let mut digits = zero_padded_chars(input.invoice_id as u64, 6);
        number.append(&mut digits);
        assert(number@ =~= invoice_number_text(input.invoice_id as nat));
        Ok(
            InvoiceIssue {
                invoice_number: string_from_chars(&number),
                issued_at: input.issued_at,
                labor_charge_fils: input.labor_charge_fils,
                parts_total_fils,
                total_fils,
            },
        )
    }

    pub fn invoice_number(&self) -> (r: &str)
        ensures
            r@ == self@.invoice_number,
    {
        self.invoice_number.as_str()
    }

    pub fn issued_at(&self) -> (r: i64)
        ensures
            r == self@.issued_at,
    {
        self.issued_at
    }

    pub fn labor_charge_fils(&self) -> (r: i64)
        ensures
            r == self@.labor_charge_fils,
    {
        self.labor_charge_fils
    }

    pub fn parts_total_fils(&self) -> (r: i64)
        ensures
            r == self@.parts_total_fils,
    {
        self.parts_total_fils
    }

    pub fn total_fils(&self) -> (r: i64)
        ensures
            r == self@.total_fils,
    {
        self.total_fils
    }
}

} // verus!

verus! {

/// An issued invoice carries the labor charge, the sum of the active part
/// lines, and a total that is exactly their sum; its number is `INV-` and the
/// zero-padded invoice id.
pub proof fn issued_totals_add_up(input: InvoiceIssueInput)
    requires
        issue_outcome(input) is Ok,
    ensures
        ({
            let issue = issue_outcome(input)->Ok_0;
            &&& issue.parts_total_fils == sum_fils(input.active_part_line_totals_fils@)
            &&& issue.labor_charge_fils == input.labor_charge_fils
            &&& issue.total_fils == issue.labor_charge_fils + issue.parts_total_fils
            &&& issue.invoice_number == invoice_number_text(input.invoice_id as nat)
            &&& issue.issued_at >= input.completed_at.unwrap()
        }),
{
    lemma_prefix_sum_le(input.active_part_line_totals_fils@, 0);
}

/// Only a visit that is ready for pickup or closed can be invoiced.
pub proof fn only_finished_visits_are_invoiced(input: InvoiceIssueInput)
    requires
        issue_outcome(input) is Ok,
    ensures
        invoiceable(input.service_visit_status),
        input.completed_at.is_some(),
{
}

/// Different invoices get different invoice numbers.
pub proof fn invoice_numbers_are_distinct(a: nat, b: nat)
    requires
        a != b,
    ensures
        invoice_number_text(a) != invoice_number_text(b),
{
    zero_padding_keeps_the_number(a, 6);
    zero_padding_keeps_the_number(b, 6);
    assert(invoice_number_text(a).skip(4) =~= zero_padded(a, 6));
    assert(invoice_number_text(b).skip(4) =~= zero_padded(b, 6));
}

} // verus!
