//! A new customer of the workshop: a trimmed name and a phone number brought
//! into the Jordanian international form.

use vstd::prelude::*;

use crate::text::{
    lemma_trimmed_ends, lemma_trimmed_unchanged, opt_as_str, opt_chars, string_from_chars, trim_text,
    trim_is_idempotent, trimmed, white_space,
};

verus! {

#[derive(Debug, PartialEq)]
pub struct NewCustomer {
    name: String,
    phone: String,
    notes: Option<String>,
}

#[derive(Debug, Clone, Copy, PartialEq, Eq)]
pub enum CustomerValidationError {
    BlankName,
    BlankPhone,
}

pub struct NewCustomerView {
    pub name: Seq<char>,
    pub phone: Seq<char>,
    pub notes: Option<Seq<char>>,
}

impl View for NewCustomer {
    type V = NewCustomerView;

    closed spec fn view(&self) -> NewCustomerView {
        NewCustomerView { name: self.name@, phone: self.phone@, notes: opt_chars(self.notes) }
    }
}

pub open spec fn jordan_prefix() -> Seq<char> {
    seq!['+', '9', '6', '2']
}

pub open spec fn international_prefix() -> Seq<char> {
    seq!['0', '0', '9', '6', '2']
}

/// The trimmed phone number with a leading `00962` or a leading `0`
/// replaced by `+962`.
pub open spec fn normalized_phone(raw: Seq<char>) -> Seq<char> {
    let t = trimmed(raw);
    if t.len() >= 5 && t.take(5) == international_prefix() {
        jordan_prefix() + t.skip(5)
    } else if t.len() >= 1 && t[0] == '0' {
        jordan_prefix() + t.skip(1)
    } else {
        t
    }
}

/// What `NewCustomer::new` gives for the given texts.
pub open spec fn new_customer_outcome(
    name: Seq<char>,
    phone: Seq<char>,
    notes: Option<Seq<char>>,
) -> Result<NewCustomerView, CustomerValidationError> {
    if trimmed(name).len() == 0 {
        Err(CustomerValidationError::BlankName)
    } else if normalized_phone(phone).len() == 0 {
        Err(CustomerValidationError::BlankPhone)
    } else {
        Ok(NewCustomerView { name: trimmed(name), phone: normalized_phone(phone), notes })
    }
}

impl NewCustomer {
    pub fn new(name: String, phone: String, notes: Option<String>) -> (r: Result<
        Self,
        CustomerValidationError,
    >)
        ensures
            match r {
                Ok(customer) => new_customer_outcome(name@, phone@, opt_chars(notes)) == Ok::<
                    NewCustomerView,
                    CustomerValidationError,
                >(customer@),
                Err(e) => new_customer_outcome(name@, phone@, opt_chars(notes)) == Err::<
                    NewCustomerView,
                    CustomerValidationError,
                >(e),
            },
    {
        let (name, name_chars) = trim_text(name.as_str());
        let phone = normalize_phone(phone.as_str());
        if name_chars.len() == 0 {
            return Err(CustomerValidationError::BlankName);
        }
        if phone.len() == 0 {
            return Err(CustomerValidationError::BlankPhone);
        }
        let customer = NewCustomer { name, phone: string_from_chars(&phone), notes };
        assert(customer@.notes == opt_chars(notes));
        Ok(customer)
    }

    pub fn name(&self) -> (r: &str)
        ensures
            r@ == self@.name,
    {
        self.name.as_str()
    }

    pub fn phone(&self) -> (r: &str)
        ensures
            r@ == self@.phone,
    {
        self.phone.as_str()
    }

    pub fn notes(&self) -> (r: Option<&str>)
        ensures
            match r {
                Some(s) => self@.notes == Some(s@),
                None => self@.notes.is_none(),
            },
    {
        opt_as_str(&self.notes)
    }
}

/// The characters of the normalized phone number.
fn normalize_phone(phone: &str) -> (r: Vec<char>)
    ensures
        r@ == normalized_phone(phone@),
{
    let (_, t) = trim_text(phone);
    let n = t.len();
    let international = n >= 5 && t[0] == '0' && t[1] == '0' && t[2] == '9' && t[3] == '6' && t[4]
        == '2';
    let skip: usize = if international {
        5
    } else if n >= 1 && t[0] == '0' {
        1
    } else {
        0
    };
    proof {
        if international {
            assert(t@.take(5) =~= international_prefix());
        } else if n >= 5 {
            assert(t@.take(5)[0] == t@[0]);
            assert(t@.take(5)[1] == t@[1]);
            assert(t@.take(5)[2] == t@[2]);
            assert(t@.take(5)[3] == t@[3]);
            assert(t@.take(5)[4] == t@[4]);
        }
    }
    if skip == 0 {
        return t;
    }
    let mut out: Vec<char> = Vec::new();
    out.push('+');
    out.push('9');
    out.push('6');
    out.push('2');
    let mut i: usize = skip;
    while i < n
        invariant
            skip <= i <= n == t@.len(),
            out@ =~= jordan_prefix() + t@.subrange(skip as int, i as int),
        decreases n - i,
    {
        out.push(t[i]);
        i = i + 1;
    }
    assert(t@.subrange(skip as int, n as int) =~= t@.skip(skip as int));
    out
}

/// Normalizing a phone number that is already normalized changes nothing:
/// the result is trimmed and starts with neither `00962` nor `0`.
pub proof fn phone_normalization_is_idempotent(raw: Seq<char>)
    ensures
        normalized_phone(normalized_phone(raw)) == normalized_phone(raw),
{
    let t = trimmed(raw);
    let out = normalized_phone(raw);
    lemma_trimmed_ends(raw);
    trim_is_idempotent(raw);
    if out != t {
        let rest = if t.len() >= 5 && t.take(5) == international_prefix() {
            t.skip(5)
        } else {
            t.skip(1)
        };
        assert(out == jordan_prefix() + rest);
        assert(out[0] == '+');
        if rest.len() > 0 {
            assert(out[out.len() - 1] == t[t.len() - 1]);
        } else {
            assert(out[out.len() - 1] == '2');
        }
        lemma_trimmed_unchanged(out);
        if out.len() >= 5 {
            assert(out.take(5)[0] == out[0]);
        }
    }
}

/// A customer entered again exactly as it was registered is registered
/// unchanged.
pub proof fn registering_a_customer_again_changes_nothing(
    name: Seq<char>,
    phone: Seq<char>,
    notes: Option<Seq<char>>,
)
    requires
        new_customer_outcome(name, phone, notes) is Ok,
    ensures
        ({
            let c = new_customer_outcome(name, phone, notes)->Ok_0;
            new_customer_outcome(c.name, c.phone, c.notes) == Ok::<
                NewCustomerView,
                CustomerValidationError,
            >(c)
        }),
{
    trim_is_idempotent(name);
    phone_normalization_is_idempotent(phone);
}


/// A Jordanian number is stored the same way however it is written: with a
/// leading `0`, with the international `00962`, or already with `+962`, the
/// stored phone is `+962` followed by the subscriber digits.
pub proof fn phone_forms_are_stored_alike(subscriber: Seq<char>)
    requires
        subscriber.len() > 0,
        subscriber[0] != '0',
        !white_space(subscriber[0]),
        !white_space(subscriber[subscriber.len() - 1]),
    ensures
        normalized_phone(seq!['0'] + subscriber) == seq!['+', '9', '6', '2'] + subscriber,
        normalized_phone(seq!['0', '0', '9', '6', '2'] + subscriber) == seq!['+', '9', '6', '2']
            + subscriber,
        normalized_phone(seq!['+', '9', '6', '2'] + subscriber) == seq!['+', '9', '6', '2']
            + subscriber,
{
    let local = seq!['0'] + subscriber;
    let international = seq!['0', '0', '9', '6', '2'] + subscriber;
    let plus = seq!['+', '9', '6', '2'] + subscriber;
    lemma_trimmed_unchanged(local);
    lemma_trimmed_unchanged(international);
    lemma_trimmed_unchanged(plus);
    assert(local.len() < 5 || local.take(5) != international_prefix()) by {
        if local.len() >= 5 {
            assert(local.take(5)[1] == subscriber[0]);
        }
    }
    assert(local.skip(1) =~= subscriber);
    assert(international.take(5) =~= international_prefix());
    assert(international.skip(5) =~= subscriber);
    assert(plus.len() >= 5 ==> plus.take(5)[0] == '+');
    assert(plus.len() >= 5 ==> plus.take(5) != international_prefix()) by {
        if plus.len() >= 5 {
            assert(plus.take(5)[0] != international_prefix()[0]);
        }
    }
}
} // verus!
