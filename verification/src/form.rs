use vstd::prelude::*;

use crate::config::clone_opt_string;
use vstd::string::StringSliceAdditionalSpecFns;
use vstd::utf8::encode_utf8;

verus! {

/// A remembered answer for one option of one authentication form,
/// addressed by the `(form_id, opt_id)` pair.
#[derive(Debug)]
pub struct FormField {
    pub form_id: String,
    pub opt_id: String,
    pub value: Option<String>,
}

/// The kinds of options an authentication form can carry.
#[derive(Debug, Clone, Copy, PartialEq, Eq, Structural)]
pub enum FormOptKind {
    Text,
    Password,
    Token,
    Hidden,
    Select,
    Ignore,
}

/// One option of an authentication form: its kind and its identifier.
#[derive(Debug)]
pub struct FormOption {
    pub kind: FormOptKind,
    pub name: String,
}

/// One authentication form round, as the engine presents it.
#[derive(Debug)]
pub struct AuthForm {
    pub auth_id: String,
    pub opts: Vec<FormOption>,
}

/// An answer produced for one form option.
#[derive(Debug)]
pub struct FormAnswer {
    pub opt_id: String,
    pub value: String,
}

/// What the resolver tells the engine after one form round: submit the
/// answers, or abort the authentication attempt.
#[derive(Debug, Clone, Copy, PartialEq, Eq, Structural)]
pub enum FormResult {
    Submit,
    Cancelled,
}

/// How many consecutive empty form rounds the resolver tolerates before it
/// aborts the authentication attempt.
pub const EMPTY_FORM_LIMIT: u32 = 3;

/// The first saved answer for `(form_id, opt_id)`, if any field with those
/// identifiers was saved.
pub open spec fn spec_saved_form_field(
    fields: Seq<FormField>,
    form_id: Seq<char>,
    opt_id: Seq<char>,
) -> Option<String>
    decreases fields.len(),
{
    if fields.len() == 0 {
        None
    } else if fields[0].form_id@ == form_id && fields[0].opt_id@ == opt_id {
        fields[0].value
    } else {
        spec_saved_form_field(fields.drop_first(), form_id, opt_id)
    }
}

/// A text field with one of these names asks for the configured username.
pub open spec fn is_username_field(name: Seq<char>) -> bool {
    name == "username"@ || name == "user"@ || name == "uname"@
}

/// The value the resolver gives one form option, from the entrypoint's
/// credentials and the saved answers alone.
pub open spec fn spec_field_value(
    saved: Seq<FormField>,
    form_id: Seq<char>,
    opt: FormOption,
    username: Option<String>,
    password: Option<String>,
) -> Option<String> {
    match opt.kind {
        FormOptKind::Text => if is_username_field(opt.name@) {
            username
        } else {
            None
        },
        FormOptKind::Password => password,
        FormOptKind::Hidden => spec_saved_form_field(saved, form_id, opt.name@),
        FormOptKind::Select => spec_saved_form_field(saved, form_id, opt.name@),
        FormOptKind::Token => None,
        FormOptKind::Ignore => None,
    }
}

/// Whether one form option counts as answered. Token options need no value
/// and count as answered; ignored options never do.
pub open spec fn spec_field_answered(
    saved: Seq<FormField>,
    form_id: Seq<char>,
    opt: FormOption,
    username: Option<String>,
    password: Option<String>,
) -> bool {
    match opt.kind {
        FormOptKind::Token => true,
        FormOptKind::Ignore => false,
        _ => spec_field_value(saved, form_id, opt, username, password) is Some,
    }
}

/// The answers one form round produces, in option order, as
/// `(opt_id, value)` pairs.
pub open spec fn spec_form_answers(
    saved: Seq<FormField>,
    form_id: Seq<char>,
    opts: Seq<FormOption>,
    username: Option<String>,
    password: Option<String>,
) -> Seq<(Seq<char>, Seq<char>)>
    decreases opts.len(),
{
    if opts.len() == 0 {
        Seq::empty()
    } else {
        let rest = spec_form_answers(saved, form_id, opts.drop_last(), username, password);
        match spec_field_value(saved, form_id, opts.last(), username, password) {
            Some(v) => rest.push((opts.last().name@, v@)),
            None => rest,
        }
    }
}

/// Whether a form round with these options produces at least one answered
/// field.
pub open spec fn spec_any_answered(
    saved: Seq<FormField>,
    form_id: Seq<char>,
    opts: Seq<FormOption>,
    username: Option<String>,
    password: Option<String>,
) -> bool {
    exists|i: int|
        0 <= i < opts.len() && spec_field_answered(saved, form_id, opts[i], username, password)
}

/// ASCII-case-insensitive equality of two bytes.
pub open spec fn byte_eq_ic(a: u8, b: u8) -> bool {
    ||| a == b
    ||| (65 <= a <= 90 && b == a + 32)
    ||| (65 <= b <= 90 && a == b + 32)
}

/// ASCII-case-insensitive equality of two byte sequences.
pub open spec fn bytes_eq_ic(a: Seq<u8>, b: Seq<u8>) -> bool {
    a.len() == b.len() && forall|i: int| 0 <= i < a.len() ==> byte_eq_ic(a[i], b[i])
}

/// The label answers this choice exactly (ignoring ASCII case).
pub open spec fn choice_exact_match(choice: Seq<u8>, label: Seq<u8>) -> bool {
    bytes_eq_ic(choice, label)
}

/// The label is a (case-insensitive) prefix of this choice.
pub open spec fn choice_prefix_match(choice: Seq<u8>, label: Seq<u8>) -> bool {
    choice.len() >= label.len() && bytes_eq_ic(choice.subrange(0, label.len() as int), label)
}

/// ASCII-case-insensitive equality of a byte slice's prefix with a label.
fn bytes_ieq(a: &[u8], b: &[u8]) -> (r: bool)
    ensures
        r == bytes_eq_ic(a@, b@),
{
    if a.len() != b.len() {
        return false;
    }
    let n = a.len();
    let mut i: usize = 0;
    while i < n
        invariant
            n == a@.len() == b@.len(),
            0 <= i <= n,
            forall|j: int| 0 <= j < i ==> byte_eq_ic(a@[j], b@[j]),
        decreases n - i,
    {
        let x = a[i];
        let y = b[i];
        let eq = x == y || (65 <= x && x <= 90 && y == x + 32) || (65 <= y && y <= 90 && x == y
            + 32);
        if !eq {
            return false;
        }
        i = i + 1;
    }
    true
}

/// The choice at `i` matches the label exactly, ignoring ASCII case.
pub open spec fn spec_exact_at(choices: Seq<String>, lbl: Seq<u8>, i: int) -> bool {
    choice_exact_match(encode_utf8(choices[i]@), lbl)
}

/// The label is a case-insensitive prefix of the choice at `i`.
pub open spec fn spec_prefix_at(choices: Seq<String>, lbl: Seq<u8>, i: int) -> bool {
    choice_prefix_match(encode_utf8(choices[i]@), lbl)
}

/// The choice at `i` is the only one the label is a prefix of.
pub open spec fn spec_unique_prefix(choices: Seq<String>, lbl: Seq<u8>, i: int) -> bool {
    &&& 0 <= i < choices.len()
    &&& spec_prefix_at(choices, lbl, i)
    &&& forall|j: int|
        0 <= j < choices.len() && #[trigger] spec_prefix_at(choices, lbl, j) ==> j == i
}

/// The label is a (case-insensitive) prefix of the byte slice.
fn prefix_ieq(a: &[u8], b: &[u8]) -> (r: bool)
    ensures
        r == choice_prefix_match(a@, b@),
{
    if a.len() < b.len() {
        return false;
    }
    let n = b.len();
    let mut i: usize = 0;
    while i < n
        invariant
            n == b@.len() <= a@.len(),
            0 <= i <= n,
            forall|j: int| 0 <= j < i ==> byte_eq_ic(a@[j], b@[j]),
        decreases n - i,
    {
        let x = a[i];
        let y = b[i];
        let eq = x == y || (65 <= x && x <= 90 && y == x + 32) || (65 <= y && y <= 90 && x == y
            + 32);
        if !eq {
            proof {
                assert(a@.subrange(0, n as int)[i as int] == a@[i as int]);
            }
            return false;
        }
        i = i + 1;
    }
    proof {
        assert forall|j: int| 0 <= j < n implies byte_eq_ic(
            a@.subrange(0, n as int)[j],
            b@[j],
        ) by {
            assert(a@.subrange(0, n as int)[j] == a@[j]);
        }
    }
    true
}

/// Picks the choice of a select option that a saved answer names: the
/// first choice the label matches exactly (ignoring ASCII case), or else
/// the single choice it is a prefix of. An empty label, no match at all,
/// or an ambiguous prefix selects nothing.
/// The whole selection rule, as a relation between the choices, the label
/// bytes and the picked index: the first exact match wins; failing that,
/// the one choice the label is a prefix of; an empty label, no match, or
/// an ambiguous prefix picks nothing.
pub open spec fn spec_choice_match(choices: Seq<String>, lbl: Seq<u8>, r: Option<usize>) -> bool {
    let n = choices.len();
    &&& (r matches Some(k) ==> k < n)
    &&& (lbl.len() == 0 ==> r is None)
    &&& (lbl.len() > 0 ==> {
        &&& ((exists|i: int| 0 <= i < n && #[trigger] spec_exact_at(choices, lbl, i)) ==> (
        r matches Some(k) && spec_exact_at(choices, lbl, k as int) && (forall|j: int|
            0 <= j < k ==> !spec_exact_at(choices, lbl, j))))
        &&& ((forall|i: int| 0 <= i < n ==> !(#[trigger] spec_exact_at(choices, lbl, i))) ==> {
            &&& ((exists|i: int| #[trigger] spec_unique_prefix(choices, lbl, i)) ==> (
            r matches Some(k) && spec_unique_prefix(choices, lbl, k as int)))
            &&& ((forall|i: int| !(#[trigger] spec_unique_prefix(choices, lbl, i))) ==> r is None)
        })
    })
}

pub fn match_choice_label(choices: &Vec<String>, label: &str) -> (r: Option<usize>)
    ensures
        spec_choice_match(choices@, label.spec_bytes(), r),
{
    let lbl = label.as_bytes();
    if lbl.len() == 0 {
        return None;
    }
    let n = choices.len();
    let mut i: usize = 0;
    while i < n
        invariant
            n == choices@.len(),
            0 <= i <= n,
            lbl@ == label.spec_bytes(),
            lbl@.len() > 0,
            forall|j: int| 0 <= j < i ==> !spec_exact_at(choices@, lbl@, j),
        decreases n - i,
    {
        let cb = choices[i].as_str().as_bytes();
        if cb.len() == lbl.len() && prefix_ieq(cb, lbl) {
            proof {
                assert(bytes_eq_ic(cb@.subrange(0, lbl@.len() as int), lbl@));
                assert(cb@.subrange(0, lbl@.len() as int) =~= cb@);
                assert(spec_exact_at(choices@, lbl@, i as int));
            }
            return Some(i);
        }
        proof {
            if spec_exact_at(choices@, lbl@, i as int) {
                assert(cb@.len() == lbl@.len());
                assert(cb@.subrange(0, lbl@.len() as int) =~= cb@);
                assert(choice_prefix_match(cb@, lbl@));
                assert(false);
            }
        }
        i = i + 1;
    }
    let mut count: usize = 0;
    let mut found: usize = 0;
    let ghost mut gw1: int = 0;
    let ghost mut gw2: int = 0;
    let mut k: usize = 0;
    while k < n
        invariant
            n == choices@.len(),
            0 <= k <= n,
            lbl@ == label.spec_bytes(),
            lbl@.len() > 0,
            forall|j: int| 0 <= j < n ==> !spec_exact_at(choices@, lbl@, j),
            count <= 2,
            count == 0 ==> forall|j: int| 0 <= j < k ==> !spec_prefix_at(choices@, lbl@, j),
            count == 1 ==> found < k && spec_prefix_at(choices@, lbl@, found as int) && (forall|
                j: int,
            |
                0 <= j < k && #[trigger] spec_prefix_at(choices@, lbl@, j) ==> j == found as int),
            count == 2 ==> 0 <= gw1 < gw2 < k && spec_prefix_at(choices@, lbl@, gw1)
                && spec_prefix_at(choices@, lbl@, gw2),
        decreases n - k,
    {
        let cb = choices[k].as_str().as_bytes();
        if prefix_ieq(cb, lbl) {
            if count == 0 {
                count = 1;
                found = k;
            } else if count == 1 {
                count = 2;
                proof {
                    gw1 = found as int;
                    gw2 = k as int;
                }
            }
        }
        k = k + 1;
    }
    if count == 1 {
        proof {
            assert(spec_unique_prefix(choices@, lbl@, found as int));
        }
        Some(found)
    } else {
        proof {
            if count == 0 {
                assert forall|i2: int| !(#[trigger] spec_unique_prefix(
                    choices@,
                    lbl@,
                    i2,
                )) by {
                    if spec_unique_prefix(choices@, lbl@, i2) {
                        assert(spec_prefix_at(choices@, lbl@, i2));
                    }
                }
            } else {
                assert forall|i2: int| !(#[trigger] spec_unique_prefix(
                    choices@,
                    lbl@,
                    i2,
                )) by {
                    if spec_unique_prefix(choices@, lbl@, i2) {
                        assert(spec_prefix_at(choices@, lbl@, gw1));
                        assert(spec_prefix_at(choices@, lbl@, gw2));
                    }
                }
            }
        }
        None
    }
}

/// The resolver's state across the form rounds of one connection attempt:
/// saved answers, and the running count of consecutive empty rounds.
#[derive(Debug)]
pub struct FormManager {
    pub empty_form_rounds: u32,
    pub saved_form_fields: Vec<FormField>,
}

impl FormManager {
    /// A fresh resolver: no saved answers, no empty rounds seen.
    pub fn new() -> (r: Self)
        ensures
            r.empty_form_rounds == 0,
            r.saved_form_fields@.len() == 0,
    {
        FormManager { empty_form_rounds: 0, saved_form_fields: Vec::new() }
    }

    /// Clears the resolver at the start of a new connection attempt.
    pub fn reset(&mut self)
        ensures
            final(self).empty_form_rounds == 0,
            final(self).saved_form_fields@.len() == 0,
    {
        self.empty_form_rounds = 0;
        self.saved_form_fields.clear();
    }

    /// The first saved answer for `(form_id, opt_id)`, if one exists.
    pub fn saved_form_field(&self, form_id: &str, opt_id: &str) -> (r: Option<String>)
        ensures
            r == spec_saved_form_field(self.saved_form_fields@, form_id@, opt_id@),
    {
        let n = self.saved_form_fields.len();
        let mut i: usize = 0;
        while i < n
            invariant
                n == self.saved_form_fields@.len(),
                0 <= i <= n,
                forall|j: int|
                    0 <= j < i ==> !(self.saved_form_fields@[j].form_id@ == form_id@
                        && self.saved_form_fields@[j].opt_id@ == opt_id@),
            decreases n - i,
        {
            let ff = &self.saved_form_fields[i];
            if crate::str_eq(ff.form_id.as_str(), form_id) && crate::str_eq(
                ff.opt_id.as_str(),
                opt_id,
            ) {
                proof {
                    lemma_saved_first_match(self.saved_form_fields@, form_id@, opt_id@, i as int);
                }
                return clone_opt_string(&ff.value);
            }
            i = i + 1;
        }
        proof {
            lemma_saved_first_match(self.saved_form_fields@, form_id@, opt_id@, n as int);
        }
        None
    }

    /// The choice a select option resolves to: the saved answer for
    /// `(form_id, opt_id)`, matched against the option's choices by the
    /// selection rule of [`match_choice_label`]. With no saved answer
    /// nothing is selected.
    pub fn resolve_select_choice(
        &self,
        form_id: &str,
        opt_id: &str,
        choices: &Vec<String>,
    ) -> (r: Option<usize>)
        ensures
            ({
                let saved = spec_saved_form_field(self.saved_form_fields@, form_id@, opt_id@);
                &&& (saved is None ==> r is None)
                &&& (saved matches Some(v) ==> spec_choice_match(choices@, encode_utf8(v@), r))
            }),
    {
        match self.saved_form_field(form_id, opt_id) {
            None => None,
            Some(v) => match_choice_label(choices, v.as_str()),
        }
    }

    /// Answers one form round from the entrypoint's credentials and the
    /// saved answers, and applies the empty-round abort policy: a round
    /// with no answered field raises the running count, and the round that
    /// brings the count to the limit is cancelled; any answered field
    /// resets the count to zero.
    pub fn process_form(
        &mut self,
        username: &Option<String>,
        password: &Option<String>,
        form: &AuthForm,
    ) -> (r: (Vec<FormAnswer>, FormResult))
        ensures
            ({
                let saved = old(self).saved_form_fields@;
                let answered = spec_any_answered(
                    saved,
                    form.auth_id@,
                    form.opts@,
                    *username,
                    *password,
                );
                &&& r.0@.map_values(|a: FormAnswer| (a.opt_id@, a.value@)) == spec_form_answers(
                    saved,
                    form.auth_id@,
                    form.opts@,
                    *username,
                    *password,
                )
                &&& final(self).saved_form_fields == old(self).saved_form_fields
                &&& final(self).empty_form_rounds == if answered {
                    0u32
                } else if old(self).empty_form_rounds < EMPTY_FORM_LIMIT {
                    (old(self).empty_form_rounds + 1) as u32
                } else {
                    EMPTY_FORM_LIMIT
                }
                &&& (r.1 is Cancelled <==> (!answered && old(self).empty_form_rounds
                    >= EMPTY_FORM_LIMIT - 1))
            }),
    {
        let ghost saved = self.saved_form_fields@;
        let mut answers: Vec<FormAnswer> = Vec::new();
        let mut answered: bool = false;
        let n = form.opts.len();
        let mut i: usize = 0;
        while i < n
            invariant
                n == form.opts@.len(),
                0 <= i <= n,
                saved == self.saved_form_fields@,
                answers@.map_values(|a: FormAnswer| (a.opt_id@, a.value@)) == spec_form_answers(
                    saved,
                    form.auth_id@,
                    form.opts@.subrange(0, i as int),
                    *username,
                    *password,
                ),
                answered == spec_any_answered(
                    saved,
                    form.auth_id@,
                    form.opts@.subrange(0, i as int),
                    *username,
                    *password,
                ),
            decreases n - i,
        {
            let ghost prefix = form.opts@.subrange(0, i as int);
            let ghost prefix1 = form.opts@.subrange(0, i as int + 1);
            proof {
                assert(prefix1.drop_last() =~= prefix);
                assert(prefix1.last() == form.opts@[i as int]);
            }
            let opt = &form.opts[i];
            let value: Option<String> = match opt.kind {
                FormOptKind::Text => {
                    if crate::str_eq(opt.name.as_str(), "username") || crate::str_eq(
                        opt.name.as_str(),
                        "user",
                    ) || crate::str_eq(opt.name.as_str(), "uname") {
                        clone_opt_string(username)
                    } else {
                        None
                    }
                },
                FormOptKind::Password => clone_opt_string(password),
                FormOptKind::Hidden => self.saved_form_field(
                    form.auth_id.as_str(),
                    opt.name.as_str(),
                ),
                FormOptKind::Select => self.saved_form_field(
                    form.auth_id.as_str(),
                    opt.name.as_str(),
                ),
                FormOptKind::Token => None,
                FormOptKind::Ignore => None,
            };
            match opt.kind {
                FormOptKind::Token => {
                    answered = true;
                },
                FormOptKind::Ignore => {},
                _ => {
                    if value.is_some() {
                        answered = true;
                    }
                },
            }
            match value {
                Some(v) => {
                    let ghost old_answers = answers@;
                    answers.push(FormAnswer { opt_id: opt.name.clone(), value: v });
                    proof {
                        assert(answers@.map_values(|a: FormAnswer| (a.opt_id@, a.value@))
                            =~= old_answers.map_values(|a: FormAnswer| (a.opt_id@, a.value@)).push(
                            (form.opts@[i as int].name@, answers@.last().value@),
                        ));
                    }
                },
                None => {},
            }
            proof {
                assert(spec_any_answered(saved, form.auth_id@, prefix1, *username, *password)
                    == (spec_any_answered(saved, form.auth_id@, prefix, *username, *password)
                    || spec_field_answered(
                    saved,
                    form.auth_id@,
                    form.opts@[i as int],
                    *username,
                    *password,
                ))) by {
                    if spec_any_answered(saved, form.auth_id@, prefix, *username, *password) {
                        let j = choose|j: int|
                            0 <= j < prefix.len() && spec_field_answered(
                                saved,
                                form.auth_id@,
                                prefix[j],
                                *username,
                                *password,
                            );
                        assert(prefix1[j] == prefix[j]);
                    } else if spec_field_answered(
                        saved,
                        form.auth_id@,
                        form.opts@[i as int],
                        *username,
                        *password,
                    ) {
                        assert(prefix1[i as int] == form.opts@[i as int]);
                    } else {
                        assert forall|j: int|
                            0 <= j < prefix1.len() && spec_field_answered(
                                saved,
                                form.auth_id@,
                                prefix1[j],
                                *username,
                                *password,
                            ) implies false by {
                            if j < i {
                                assert(prefix[j] == prefix1[j]);
                            }
                        }
                    }
                }
            }
            i = i + 1;
        }
        proof {
            assert(form.opts@.subrange(0, n as int) =~= form.opts@);
        }
        if answered {
            self.empty_form_rounds = 0;
            (answers, FormResult::Submit)
        } else {
            let rounds = if self.empty_form_rounds < EMPTY_FORM_LIMIT {
                self.empty_form_rounds + 1
            } else {
                EMPTY_FORM_LIMIT
            };
            self.empty_form_rounds = rounds;
            if rounds >= EMPTY_FORM_LIMIT {
                (answers, FormResult::Cancelled)
            } else {
                (answers, FormResult::Submit)
            }
        }
    }
}

impl Default for FormManager {
    fn default() -> (r: Self)
        ensures
            r.empty_form_rounds == 0,
            r.saved_form_fields@.len() == 0,
    {
        FormManager::new()
    }
}

/// If no saved field before `i` matches, the first-match lookup is decided
/// at `i`: a match there is the result, and reaching the end means there is
/// none.
proof fn lemma_saved_first_match(
    fields: Seq<FormField>,
    form_id: Seq<char>,
    opt_id: Seq<char>,
    i: int,
)
    requires
        0 <= i <= fields.len(),
        forall|j: int|
            0 <= j < i ==> !(fields[j].form_id@ == form_id && fields[j].opt_id@ == opt_id),
    ensures
        i < fields.len() && fields[i].form_id@ == form_id && fields[i].opt_id@ == opt_id
            ==> spec_saved_form_field(fields, form_id, opt_id) == fields[i].value,
        i == fields.len() ==> spec_saved_form_field(fields, form_id, opt_id) is None,
    decreases fields.len(),
{
    if fields.len() > 0 {
        if fields[0].form_id@ == form_id && fields[0].opt_id@ == opt_id {
        } else if i > 0 {
            lemma_saved_first_match(fields.drop_first(), form_id, opt_id, i - 1);
            assert(forall|j: int|
                0 <= j < fields.drop_first().len() ==> fields.drop_first()[j] == fields[j + 1]);
        }
    }
}

} // verus!
