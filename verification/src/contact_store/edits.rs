//! Changes to a contact's multi-valued fields (phones, emails, URLs, postal
//! addresses): which entry an add, remove or replace touches, which label
//! the written entry carries, and what the list looks like afterwards.
//!
//! Entries are matched by their text; a remove or replace touches the first
//! entry whose text equals the one asked for, and fails when there is none.
//! An add writes the field's default label; a replace keeps the label of the
//! entry it replaces. Text given to match or to write must not be empty.

use vstd::prelude::*;

use crate::contact_store::params::{EmailOp, PhoneOp, PostalAddressData, PostalOp, UrlOp};
use crate::error::ContactsError;
use crate::text::{opt_view, push_str, str_equal, string_of, views};

verus! {

/// The label a new email address gets.
pub const EMAIL_LABEL: &'static str = "work";

/// The label a new phone number gets.
pub const PHONE_LABEL: &'static str = "mobile";

/// The label a new URL gets.
pub const URL_LABEL: &'static str = "homepage";

/// The label a new postal address gets.
pub const POSTAL_LABEL: &'static str = "home";

/// Which kind of change is asked for.
#[derive(Debug, Clone, Copy, PartialEq, Eq)]
pub enum OpKind {
    Add,
    Remove,
    Replace,
}

/// The change to make to a list of entries: append the new entry, drop the
/// entry at an index, or put the new entry in place of the one at an index.
#[derive(Debug, Clone, Copy, PartialEq, Eq)]
pub enum ListEdit {
    Append,
    RemoveAt(usize),
    ReplaceAt(usize),
}

/// The index of the first of `values` equal to `x`.
pub open spec fn first_match(values: Seq<Seq<char>>, x: Seq<char>) -> Option<int>
    decreases values.len(),
{
    if values.len() == 0 {
        None
    } else if values[0] == x {
        Some(0)
    } else {
        match first_match(values.drop_first(), x) {
            Some(i) => Some(i + 1),
            None => None,
        }
    }
}

pub proof fn lemma_first_match(values: Seq<Seq<char>>, x: Seq<char>)
    ensures
        match first_match(values, x) {
            Some(i) => {
                &&& 0 <= i < values.len()
                &&& values[i] == x
                &&& forall|j: int| 0 <= j < i ==> values[j] != x
            },
            None => !values.contains(x),
        },
    decreases values.len(),
{
    if values.len() > 0 && values[0] != x {
        let rest = values.drop_first();
        lemma_first_match(rest, x);
        match first_match(rest, x) {
            Some(i) => {
                assert forall|j: int| 0 <= j < i + 1 implies values[j] != x by {
                    if j > 0 {
                        assert(values[j] == rest[j - 1]);
                    }
                }
            },
            None => {
                assert forall|j: int| 0 <= j < values.len() implies values[j] != x by {
                    if j > 0 {
                        assert(values[j] == rest[j - 1]);
                    }
                }
            },
        }
    }
}

/// The edit a change of the given kind makes to entries whose texts are
/// `values`, or `None` where a remove or replace finds no entry `from`.
pub open spec fn planned_edit(values: Seq<Seq<char>>, kind: OpKind, from: Seq<char>) -> Option<ListEdit> {
    match kind {
        OpKind::Add => Some(ListEdit::Append),
        OpKind::Remove => match first_match(values, from) {
            Some(i) => Some(ListEdit::RemoveAt(i as usize)),
            None => None,
        },
        OpKind::Replace => match first_match(values, from) {
            Some(i) => Some(ListEdit::ReplaceAt(i as usize)),
            None => None,
        },
    }
}

/// The entries after an edit. An edit whose index is out of range, or that
/// needs a new entry and has none, leaves the entries as they are.
pub open spec fn applied<T>(entries: Seq<T>, edit: ListEdit, new_entry: Option<T>) -> Seq<T> {
    match edit {
        ListEdit::Append => match new_entry {
            Some(e) => entries.push(e),
            None => entries,
        },
        ListEdit::RemoveAt(i) => if i < entries.len() {
            entries.remove(i as int)
        } else {
            entries
        },
        ListEdit::ReplaceAt(i) => match new_entry {
            Some(e) => if i < entries.len() {
                entries.update(i as int, e)
            } else {
                entries
            },
            None => entries,
        },
    }
}

/// A stored entry of a multi-valued field: its label (the store may hold
/// none) and its text.
#[derive(Debug, Clone, PartialEq, Eq, Default)]
pub struct Entry {
    pub label: Option<String>,
    pub value: String,
}

/// An entry as a label view and a text view.
pub open spec fn entry_view(e: Entry) -> (Option<Seq<char>>, Seq<char>) {
    (opt_view(e.label), e.value@)
}

pub open spec fn entry_views(es: Seq<Entry>) -> Seq<(Option<Seq<char>>, Seq<char>)> {
    es.map_values(|e: Entry| entry_view(e))
}

/// The texts of entries.
pub open spec fn entry_texts(es: Seq<(Option<Seq<char>>, Seq<char>)>) -> Seq<Seq<char>> {
    es.map_values(|e: (Option<Seq<char>>, Seq<char>)| e.1)
}

/// The labels of entries.
pub open spec fn entry_labels(es: Seq<(Option<Seq<char>>, Seq<char>)>) -> Seq<Option<Seq<char>>> {
    es.map_values(|e: (Option<Seq<char>>, Seq<char>)| e.0)
}

/// The label of the entry an edit writes: the default label for an append,
/// the label of the replaced entry for a replace, none for a remove.
pub open spec fn written_label(
    es: Seq<(Option<Seq<char>>, Seq<char>)>,
    edit: ListEdit,
    default_label: Seq<char>,
) -> Option<Seq<char>> {
    match edit {
        ListEdit::Append => Some(default_label),
        ListEdit::ReplaceAt(i) => if i < es.len() {
            es[i as int].0
        } else {
            None
        },
        ListEdit::RemoveAt(_) => None,
    }
}

/// The entries after a change, or `None` where no entry has the text a
/// remove or replace looks for: an add appends `to` under the default label,
/// a remove drops the first entry with text `from`, a replace gives that
/// entry the text `to` and keeps its label.
pub open spec fn edited_entries(
    es: Seq<(Option<Seq<char>>, Seq<char>)>,
    kind: OpKind,
    from: Seq<char>,
    to: Seq<char>,
    default_label: Seq<char>,
) -> Option<Seq<(Option<Seq<char>>, Seq<char>)>> {
    match kind {
        OpKind::Add => Some(es.push((Some(default_label), to))),
        OpKind::Remove => match first_match(entry_texts(es), from) {
            Some(i) => Some(es.remove(i)),
            None => None,
        },
        OpKind::Replace => match first_match(entry_texts(es), from) {
            Some(i) => Some(es.update(i, (es[i].0, to))),
            None => None,
        },
    }
}

/// Carrying out the planned edit, writing an entry with the planned label
/// and the new text, gives the entries that `edited_entries` describes.
pub proof fn law_planned_edit_applies(
    es: Seq<(Option<Seq<char>>, Seq<char>)>,
    kind: OpKind,
    from: Seq<char>,
    to: Seq<char>,
    default_label: Seq<char>,
)
    requires
        es.len() <= usize::MAX,
    ensures
        match planned_edit(entry_texts(es), kind, from) {
            Some(e) => edited_entries(es, kind, from, to, default_label) == Some(
                applied(es, e, Some((written_label(es, e, default_label), to))),
            ),
            None => edited_entries(es, kind, from, to, default_label) is None,
        },
{
    lemma_first_match(entry_texts(es), from);
}

/// Carries out an edit on a list of entries.
pub fn apply_list_edit<T>(entries: &mut Vec<T>, edit: ListEdit, new_entry: Option<T>)
    ensures
        final(entries)@ == applied(old(entries)@, edit, new_entry),
{
    match edit {
        ListEdit::Append => {
            if let Some(e) = new_entry {
                entries.push(e);
            }
        },
        ListEdit::RemoveAt(i) => {
            if i < entries.len() {
                entries.remove(i);
            }
        },
        ListEdit::ReplaceAt(i) => {
            if let Some(e) = new_entry {
                if i < entries.len() {
                    entries.remove(i);
                    entries.insert(i, e);
                    proof {
                        assert(entries@ == old(entries)@.update(i as int, e));
                    }
                }
            }
        },
    }
}

/// The index of the first entry whose text is `x`.
pub fn find_first(values: &Vec<String>, x: &str) -> (r: Option<usize>)
    ensures
        match first_match(views(values@), x@) {
            Some(i) => r == Some(i as usize),
            None => r is None,
        },
{
    let ghost vs = views(values@);
    proof {
        lemma_first_match(vs, x@);
    }
    let mut i: usize = 0;
    while i < values.len()
        invariant
            i <= values@.len(),
            vs == views(values@),
            forall|j: int| 0 <= j < i ==> vs[j] != x@,
        decreases values@.len() - i,
    {
        if str_equal(values[i].as_str(), x) {
            proof {
                lemma_first_match(vs, x@);
                match first_match(vs, x@) {
                    Some(k) => {
                        if k > i {
                            assert(vs[i as int] == x@);
                        }
                    },
                    None => {
                        assert(vs[i as int] == x@);
                    },
                }
            }
            return Some(i);
        }
        i = i + 1;
    }
    proof {
        lemma_first_match(vs, x@);
        match first_match(vs, x@) {
            Some(k) => {
                assert(vs[k] == x@);
            },
            None => {},
        }
    }
    None
}

/// The text of the error for a remove or replace that finds no entry.
pub open spec fn not_found_message(what: Seq<char>, from: Seq<char>, contact_id: Seq<char>) -> Seq<char> {
    what + " '"@ + from + "' not found on contact "@ + contact_id
}

/// The index of the first entry whose text is `x`.
pub fn find_entry(entries: &Vec<Entry>, x: &str) -> (r: Option<usize>)
    ensures
        match first_match(entry_texts(entry_views(entries@)), x@) {
            Some(i) => r == Some(i as usize),
            None => r is None,
        },
{
    let ghost vs = entry_texts(entry_views(entries@));
    proof {
        lemma_first_match(vs, x@);
    }
    let mut i: usize = 0;
    while i < entries.len()
        invariant
            i <= entries@.len(),
            vs == entry_texts(entry_views(entries@)),
            forall|j: int| 0 <= j < i ==> vs[j] != x@,
        decreases entries@.len() - i,
    {
        proof {
            assert(vs[i as int] == entries@[i as int].value@);
        }
        if str_equal(entries[i].value.as_str(), x) {
            proof {
                lemma_first_match(vs, x@);
                match first_match(vs, x@) {
                    Some(k) => {
                        if k > i {
                            assert(vs[i as int] == x@);
                        }
                    },
                    None => {
                        assert(vs[i as int] == x@);
                    },
                }
            }
            return Some(i);
        }
        i = i + 1;
    }
    proof {
        lemma_first_match(vs, x@);
        match first_match(vs, x@) {
            Some(k) => {
                assert(vs[k] == x@);
            },
            None => {},
        }
    }
    None
}

/// The edit a change makes and the label of the entry it writes, or the
/// text of the error it fails with.
pub open spec fn list_outcome(
    es: Seq<(Option<Seq<char>>, Seq<char>)>,
    kind: OpKind,
    from: Seq<char>,
    what: Seq<char>,
    default_label: Seq<char>,
    contact_id: Seq<char>,
) -> Result<(ListEdit, Option<Seq<char>>), Seq<char>> {
    match planned_edit(entry_texts(es), kind, from) {
        Some(e) => Ok((e, written_label(es, e, default_label))),
        None => Err(not_found_message(what, from, contact_id)),
    }
}

/// The text of the error for empty text given to match (`part` is `_from`)
/// or to write (`part` is `_to`).
pub open spec fn empty_text_message(key: Seq<char>, part: Seq<char>) -> Seq<char> {
    key + part + " must be non-empty"@
}

/// A remove or replace given empty text to match fails with this error.
pub open spec fn empty_from_error(kind: OpKind, from: Seq<char>, key: Seq<char>) -> Option<Seq<char>> {
    if kind != OpKind::Add && from.len() == 0 {
        Some(empty_text_message(key, "_from"@))
    } else {
        None
    }
}

/// An add or replace given empty text to write fails with this error.
pub open spec fn empty_to_error(kind: OpKind, to: Seq<char>, key: Seq<char>) -> Option<Seq<char>> {
    if kind != OpKind::Remove && to.len() == 0 {
        Some(empty_text_message(key, "_to"@))
    } else {
        None
    }
}

/// What a change of text entries decides: empty text to match, then empty
/// text to write, is refused before anything is looked up.
pub open spec fn text_outcome(
    es: Seq<(Option<Seq<char>>, Seq<char>)>,
    kind: OpKind,
    from: Seq<char>,
    to: Seq<char>,
    key: Seq<char>,
    what: Seq<char>,
    default_label: Seq<char>,
    contact_id: Seq<char>,
) -> Result<(ListEdit, Option<Seq<char>>), Seq<char>> {
    match (empty_from_error(kind, from, key), empty_to_error(kind, to, key)) {
        (Some(m), _) => Err(m),
        (None, Some(m)) => Err(m),
        (None, None) => list_outcome(es, kind, from, what, default_label, contact_id),
    }
}

/// A planned change of a multi-valued field: the edit, and the label of the
/// entry it writes (none for a remove).
#[derive(Debug, Clone, PartialEq, Eq)]
pub struct PlannedEdit {
    pub edit: ListEdit,
    pub label: Option<String>,
}

/// `r` is the answer `o` describes: the same edit and label, or an
/// invalid-input error with that text.
pub open spec fn answers(
    r: Result<PlannedEdit, ContactsError>,
    o: Result<(ListEdit, Option<Seq<char>>), Seq<char>>,
) -> bool {
    match o {
        Ok((e, l)) => r matches Ok(p) && p.edit == e && opt_view(p.label) == l,
        Err(m) => r matches Err(ContactsError::InvalidInput(d)) && d@ == m,
    }
}

fn invalid_input(a: &str, b: &str, c: &str, d: &str, e: &str) -> (err: ContactsError)
    ensures
        err matches ContactsError::InvalidInput(m) && m@ == a@ + b@ + c@ + d@ + e@,
{
    let mut m = String::new();
    push_str(&mut m, a);
    push_str(&mut m, b);
    push_str(&mut m, c);
    push_str(&mut m, d);
    push_str(&mut m, e);
    ContactsError::InvalidInput(m)
}

fn invalid_input_1(a: &str) -> (err: ContactsError)
    ensures
        err matches ContactsError::InvalidInput(m) && m@ == a@,
{
    let mut m = String::new();
    push_str(&mut m, a);
    ContactsError::InvalidInput(m)
}

fn invalid_input_2(a: &str, b: &str) -> (err: ContactsError)
    ensures
        err matches ContactsError::InvalidInput(m) && m@ == a@ + b@,
{
    let mut m = String::new();
    push_str(&mut m, a);
    push_str(&mut m, b);
    ContactsError::InvalidInput(m)
}

/// Plans a change once the given texts are known to be usable.
fn plan_entry_op(
    current: &Vec<Entry>,
    kind: OpKind,
    from: &str,
    what: &str,
    default_label: &str,
    contact_id: &str,
) -> (r: Result<PlannedEdit, ContactsError>)
    ensures
        answers(r, list_outcome(entry_views(current@), kind, from@, what@, default_label@, contact_id@)),
{
    proof {
        lemma_first_match(entry_texts(entry_views(current@)), from@);
    }
    match kind {
        OpKind::Add => Ok(PlannedEdit { edit: ListEdit::Append, label: Some(string_of(default_label)) }),
        _ => match find_entry(current, from) {
            Some(i) => {
                proof {
                    assert(entry_views(current@)[i as int] == entry_view(current@[i as int]));
                }
                let label = match &current[i].label {
                    Some(l) => Some(l.clone()),
                    None => None,
                };
                match kind {
                    OpKind::Remove => Ok(PlannedEdit { edit: ListEdit::RemoveAt(i), label: None }),
                    _ => Ok(PlannedEdit { edit: ListEdit::ReplaceAt(i), label }),
                }
            },
            None => Err(invalid_input(what, " '", from, "' not found on contact ", contact_id)),
        },
    }
}

/// Refuses empty text to match (for a remove or replace) and then empty
/// text to write (for an add or replace).
fn check_texts(kind: OpKind, from: &str, to: &str, key: &str) -> (r: Result<(), ContactsError>)
    ensures
        match (empty_from_error(kind, from@, key@), empty_to_error(kind, to@, key@)) {
            (Some(m), _) => r matches Err(ContactsError::InvalidInput(d)) && d@ == m,
            (None, Some(m)) => r matches Err(ContactsError::InvalidInput(d)) && d@ == m,
            (None, None) => r is Ok,
        },
{
    proof {
        reveal_strlit("");
    }
    let needs_from = match kind {
        OpKind::Add => false,
        _ => true,
    };
    let needs_to = match kind {
        OpKind::Remove => false,
        _ => true,
    };
    if needs_from && from.is_empty() {
        return Err(invalid_input(key, "_from", " must be non-empty", "", ""));
    }
    if needs_to && to.is_empty() {
        return Err(invalid_input(key, "_to", " must be non-empty", "", ""));
    }
    Ok(())
}

impl PhoneOp {
    pub open spec fn kind(&self) -> OpKind {
        match self {
            PhoneOp::Add(_) => OpKind::Add,
            PhoneOp::Remove(_) => OpKind::Remove,
            PhoneOp::Replace { .. } => OpKind::Replace,
        }
    }

    /// The text of the entry the change looks for (empty for an add).
    pub open spec fn from_text(&self) -> Seq<char> {
        match self {
            PhoneOp::Add(_) => Seq::empty(),
            PhoneOp::Remove(f) => f@,
            PhoneOp::Replace { from, .. } => from@,
        }
    }

    /// The text of the entry the change writes (empty for a remove).
    pub open spec fn to_text(&self) -> Seq<char> {
        match self {
            PhoneOp::Add(t) => t@,
            PhoneOp::Remove(_) => Seq::empty(),
            PhoneOp::Replace { to, .. } => to@,
        }
    }
}

impl EmailOp {
    pub open spec fn kind(&self) -> OpKind {
        match self {
            EmailOp::Add(_) => OpKind::Add,
            EmailOp::Remove(_) => OpKind::Remove,
            EmailOp::Replace { .. } => OpKind::Replace,
        }
    }

    pub open spec fn from_text(&self) -> Seq<char> {
        match self {
            EmailOp::Add(_) => Seq::empty(),
            EmailOp::Remove(f) => f@,
            EmailOp::Replace { from, .. } => from@,
        }
    }

    pub open spec fn to_text(&self) -> Seq<char> {
        match self {
            EmailOp::Add(t) => t@,
            EmailOp::Remove(_) => Seq::empty(),
            EmailOp::Replace { to, .. } => to@,
        }
    }
}

impl UrlOp {
    pub open spec fn kind(&self) -> OpKind {
        match self {
            UrlOp::Add(_) => OpKind::Add,
            UrlOp::Remove(_) => OpKind::Remove,
            UrlOp::Replace { .. } => OpKind::Replace,
        }
    }

    pub open spec fn from_text(&self) -> Seq<char> {
        match self {
            UrlOp::Add(_) => Seq::empty(),
            UrlOp::Remove(f) => f@,
            UrlOp::Replace { from, .. } => from@,
        }
    }

    pub open spec fn to_text(&self) -> Seq<char> {
        match self {
            UrlOp::Add(t) => t@,
            UrlOp::Remove(_) => Seq::empty(),
            UrlOp::Replace { to, .. } => to@,
        }
    }
}

impl PostalOp {
    pub open spec fn kind(&self) -> OpKind {
        match self {
            PostalOp::Add(_) => OpKind::Add,
            PostalOp::Remove(_) => OpKind::Remove,
            PostalOp::Replace { .. } => OpKind::Replace,
        }
    }

    pub open spec fn from_text(&self) -> Seq<char> {
        match self {
            PostalOp::Add(_) => Seq::empty(),
            PostalOp::Remove(f) => f@,
            PostalOp::Replace { from, .. } => from@,
        }
    }

    /// The address the change writes, if it writes one.
    pub open spec fn new_address(&self) -> Option<PostalAddressData> {
        match self {
            PostalOp::Add(d) => Some(*d),
            PostalOp::Remove(_) => None,
            PostalOp::Replace { to, .. } => Some(*to),
        }
    }
}

/// The text of the error for a phone number the store does not accept.
pub open spec fn invalid_phone_message(to: Seq<char>) -> Seq<char> {
    "invalid phone number: "@ + to
}

/// What a phone change decides, where `accepted` is whether the store
/// accepts the number it writes: empty text is refused first, then an add or
/// replace of a number the store refuses, before anything is looked up.
pub open spec fn phone_outcome(
    es: Seq<(Option<Seq<char>>, Seq<char>)>,
    op: PhoneOp,
    contact_id: Seq<char>,
    accepted: bool,
) -> Result<(ListEdit, Option<Seq<char>>), Seq<char>> {
    let kind = op.kind();
    match (empty_from_error(kind, op.from_text(), "phone"@), empty_to_error(kind, op.to_text(), "phone"@)) {
        (Some(m), _) => Err(m),
        (None, Some(m)) => Err(m),
        (None, None) => if kind != OpKind::Remove && !accepted {
            Err(invalid_phone_message(op.to_text()))
        } else {
            list_outcome(es, kind, op.from_text(), "phone"@, PHONE_LABEL@, contact_id)
        },
    }
}

/// Decides a phone change on the contact's phone entries. `accepted` is
/// whether the store accepts the number an add or replace writes; it is not
/// looked at for a remove.
pub fn plan_phone_op(current: &Vec<Entry>, op: &PhoneOp, contact_id: &str, accepted: bool) -> (r:
    Result<PlannedEdit, ContactsError>)
    ensures
        answers(r, phone_outcome(entry_views(current@), *op, contact_id@, accepted)),
{
    proof {
        reveal_strlit("");
    }
    match op {
        PhoneOp::Add(to) => {
            check_texts(OpKind::Add, "", to.as_str(), "phone")?;
            if !accepted {
                return Err(invalid_input_2("invalid phone number: ", to.as_str()));
            }
            plan_entry_op(current, OpKind::Add, "", "phone", PHONE_LABEL, contact_id)
        },
        PhoneOp::Remove(from) => {
            check_texts(OpKind::Remove, from.as_str(), "", "phone")?;
            plan_entry_op(current, OpKind::Remove, from.as_str(), "phone", PHONE_LABEL, contact_id)
        },
        PhoneOp::Replace { from, to } => {
            check_texts(OpKind::Replace, from.as_str(), to.as_str(), "phone")?;
            if !accepted {
                return Err(invalid_input_2("invalid phone number: ", to.as_str()));
            }
            plan_entry_op(current, OpKind::Replace, from.as_str(), "phone", PHONE_LABEL, contact_id)
        },
    }
}

/// What an email change decides.
pub open spec fn email_outcome(
    es: Seq<(Option<Seq<char>>, Seq<char>)>,
    op: EmailOp,
    contact_id: Seq<char>,
) -> Result<(ListEdit, Option<Seq<char>>), Seq<char>> {
    text_outcome(es, op.kind(), op.from_text(), op.to_text(), "email"@, "email"@, EMAIL_LABEL@, contact_id)
}

/// Decides an email change on the contact's email entries.
pub fn plan_email_op(current: &Vec<Entry>, op: &EmailOp, contact_id: &str) -> (r: Result<
    PlannedEdit,
    ContactsError,
>)
    ensures
        answers(r, email_outcome(entry_views(current@), *op, contact_id@)),
{
    proof {
        reveal_strlit("");
    }
    match op {
        EmailOp::Add(to) => {
            check_texts(OpKind::Add, "", to.as_str(), "email")?;
            plan_entry_op(current, OpKind::Add, "", "email", EMAIL_LABEL, contact_id)
        },
        EmailOp::Remove(from) => {
            check_texts(OpKind::Remove, from.as_str(), "", "email")?;
            plan_entry_op(current, OpKind::Remove, from.as_str(), "email", EMAIL_LABEL, contact_id)
        },
        EmailOp::Replace { from, to } => {
            check_texts(OpKind::Replace, from.as_str(), to.as_str(), "email")?;
            plan_entry_op(current, OpKind::Replace, from.as_str(), "email", EMAIL_LABEL, contact_id)
        },
    }
}

/// What a URL change decides.
pub open spec fn url_outcome(
    es: Seq<(Option<Seq<char>>, Seq<char>)>,
    op: UrlOp,
    contact_id: Seq<char>,
) -> Result<(ListEdit, Option<Seq<char>>), Seq<char>> {
    text_outcome(es, op.kind(), op.from_text(), op.to_text(), "url"@, "url"@, URL_LABEL@, contact_id)
}

/// Decides a URL change on the contact's URL entries.
pub fn plan_url_op(current: &Vec<Entry>, op: &UrlOp, contact_id: &str) -> (r: Result<
    PlannedEdit,
    ContactsError,
>)
    ensures
        answers(r, url_outcome(entry_views(current@), *op, contact_id@)),
{
    proof {
        reveal_strlit("");
    }
    match op {
        UrlOp::Add(to) => {
            check_texts(OpKind::Add, "", to.as_str(), "url")?;
            plan_entry_op(current, OpKind::Add, "", "url", URL_LABEL, contact_id)
        },
        UrlOp::Remove(from) => {
            check_texts(OpKind::Remove, from.as_str(), "", "url")?;
            plan_entry_op(current, OpKind::Remove, from.as_str(), "url", URL_LABEL, contact_id)
        },
        UrlOp::Replace { from, to } => {
            check_texts(OpKind::Replace, from.as_str(), to.as_str(), "url")?;
            plan_entry_op(current, OpKind::Replace, from.as_str(), "url", URL_LABEL, contact_id)
        },
    }
}

/// The text of the error for a postal address without any text.
pub open spec fn empty_address_message() -> Seq<char> {
    "postal address requires at least one non-empty field"@
}

/// What a postal-address change decides: empty text to match is refused
/// first, then an add or replace of an address with no text in any part,
/// before anything is looked up. Entries are matched by their one-line form.
pub open spec fn postal_outcome(
    es: Seq<(Option<Seq<char>>, Seq<char>)>,
    op: PostalOp,
    contact_id: Seq<char>,
) -> Result<(ListEdit, Option<Seq<char>>), Seq<char>> {
    match empty_from_error(op.kind(), op.from_text(), "postal"@) {
        Some(m) => Err(m),
        None => match op.new_address() {
            Some(d) if !d.has_text() => Err(empty_address_message()),
            _ => list_outcome(es, op.kind(), op.from_text(), "postal address"@, POSTAL_LABEL@, contact_id),
        },
    }
}

/// Decides a postal-address change on entries whose texts are the one-line
/// forms of the contact's addresses.
pub fn plan_postal_op(current: &Vec<Entry>, op: &PostalOp, contact_id: &str) -> (r: Result<
    PlannedEdit,
    ContactsError,
>)
    ensures
        answers(r, postal_outcome(entry_views(current@), *op, contact_id@)),
{
    proof {
        reveal_strlit("");
        reveal_strlit("x");
    }
    match op {
        PostalOp::Add(data) => {
            if !data.has_any_text() {
                return Err(invalid_input_1("postal address requires at least one non-empty field"));
            }
            plan_entry_op(current, OpKind::Add, "", "postal address", POSTAL_LABEL, contact_id)
        },
        PostalOp::Remove(from) => {
            check_texts(OpKind::Remove, from.as_str(), "x", "postal")?;
            plan_entry_op(current, OpKind::Remove, from.as_str(), "postal address", POSTAL_LABEL, contact_id)
        },
        PostalOp::Replace { from, to } => {
            check_texts(OpKind::Remove, from.as_str(), "x", "postal")?;
            if !to.has_any_text() {
                return Err(invalid_input_1("postal address requires at least one non-empty field"));
            }
            plan_entry_op(current, OpKind::Replace, from.as_str(), "postal address", POSTAL_LABEL, contact_id)
        },
    }
}

/// The first match of `x` in `values` is at `i`, where `x` is at `i` and at
/// no earlier index.
proof fn lemma_first_match_at(values: Seq<Seq<char>>, x: Seq<char>, i: int)
    requires
        0 <= i < values.len(),
        values[i] == x,
        forall|j: int| 0 <= j < i ==> values[j] != x,
    ensures
        first_match(values, x) == Some(i),
{
    lemma_first_match(values, x);
    match first_match(values, x) {
        Some(k) => {
            if k < i {
                assert(values[k] == x);
            } else if k > i {
                assert(values[i] != x);
            }
        },
        None => {
            assert(values.contains(x)) by {
                assert(values[i] == x);
            }
        },
    }
}

/// A remove or replace fails exactly when no entry has the text it looks
/// for; an add never fails.
pub proof fn law_change_fails_only_when_missing(
    es: Seq<(Option<Seq<char>>, Seq<char>)>,
    kind: OpKind,
    from: Seq<char>,
    to: Seq<char>,
    default_label: Seq<char>,
)
    ensures
        edited_entries(es, kind, from, to, default_label) is None <==> (kind != OpKind::Add
            && !entry_texts(es).contains(from)),
{
    lemma_first_match(entry_texts(es), from);
    if entry_texts(es).contains(from) {
        match first_match(entry_texts(es), from) {
            Some(_) => {},
            None => {},
        }
    }
}

/// Adding an entry and then removing an entry with the same text gives the
/// entries back, labels included, where no entry had that text before.
pub proof fn law_add_then_remove_restores(
    es: Seq<(Option<Seq<char>>, Seq<char>)>,
    x: Seq<char>,
    other: Seq<char>,
    default_label: Seq<char>,
)
    requires
        !entry_texts(es).contains(x),
    ensures
        edited_entries(es, OpKind::Add, other, x, default_label) == Some(
            es.push((Some(default_label), x)),
        ),
        edited_entries(es.push((Some(default_label), x)), OpKind::Remove, x, other, default_label)
            == Some(es),
{
    let grown = es.push((Some(default_label), x));
    let texts = entry_texts(grown);
    assert forall|j: int| 0 <= j < es.len() implies texts[j] != x by {
        assert(texts[j] == entry_texts(es)[j]);
        if entry_texts(es)[j] == x {
            assert(entry_texts(es).contains(x));
        }
    }
    lemma_first_match_at(texts, x, es.len() as int);
    assert(grown.remove(es.len() as int) == es);
}

/// Replacing an entry's text and then replacing the new text with the old
/// gives the entries back, labels included, where the new text was not
/// among them.
pub proof fn law_replace_back_restores(
    es: Seq<(Option<Seq<char>>, Seq<char>)>,
    from: Seq<char>,
    to: Seq<char>,
    default_label: Seq<char>,
)
    requires
        entry_texts(es).contains(from),
        !entry_texts(es).contains(to),
    ensures
        edited_entries(es, OpKind::Replace, from, to, default_label) matches Some(changed)
            && edited_entries(changed, OpKind::Replace, to, from, default_label) == Some(es),
{
    let texts = entry_texts(es);
    lemma_first_match(texts, from);
    let i = first_match(texts, from)->0;
    let changed = es.update(i, (es[i].0, to));
    let ctexts = entry_texts(changed);
    assert forall|j: int| 0 <= j < i implies ctexts[j] != to by {
        assert(ctexts[j] == texts[j]);
        if texts[j] == to {
            assert(texts.contains(to));
        }
    }
    assert(ctexts[i] == to);
    lemma_first_match_at(ctexts, to, i);
    assert(texts[i] == from);
    assert(changed.update(i, (changed[i].0, from)) =~= es);
}

/// A change keeps every label it does not write: a remove or replace leaves
/// the labels of the remaining entries as they were (a replace keeps the
/// replaced entry's own label), and an add appends the default label.
pub proof fn law_labels_kept(
    es: Seq<(Option<Seq<char>>, Seq<char>)>,
    kind: OpKind,
    from: Seq<char>,
    to: Seq<char>,
    default_label: Seq<char>,
)
    ensures
        edited_entries(es, kind, from, to, default_label) matches Some(after) ==> entry_labels(after)
            == (match kind {
            OpKind::Add => entry_labels(es).push(Some(default_label)),
            OpKind::Remove => entry_labels(es).remove(first_match(entry_texts(es), from)->0),
            OpKind::Replace => entry_labels(es),
        }),
{
    lemma_first_match(entry_texts(es), from);
    match (kind, first_match(entry_texts(es), from)) {
        (OpKind::Add, _) => {
            assert(entry_labels(es.push((Some(default_label), to))) =~= entry_labels(es).push(
                Some(default_label),
            ));
        },
        (OpKind::Remove, Some(i)) => {
            assert(entry_labels(es.remove(i)) =~= entry_labels(es).remove(i));
        },
        (OpKind::Replace, Some(i)) => {
            assert(entry_labels(es.update(i, (es[i].0, to))) =~= entry_labels(es));
        },
        _ => {},
    }
}

/// A change touches one entry's text and keeps every other: an add puts one
/// text in, a remove takes one entry with the text out, a replace does both.
pub proof fn law_change_keeps_other_entries(
    es: Seq<(Option<Seq<char>>, Seq<char>)>,
    kind: OpKind,
    from: Seq<char>,
    to: Seq<char>,
    default_label: Seq<char>,
)
    ensures
        edited_entries(es, kind, from, to, default_label) matches Some(after) ==> entry_texts(
            after,
        ).to_multiset() == (match kind {
            OpKind::Add => entry_texts(es).to_multiset().insert(to),
            OpKind::Remove => entry_texts(es).to_multiset().remove(from),
            OpKind::Replace => entry_texts(es).to_multiset().remove(from).insert(to),
        }),
        edited_entries(es, kind, from, to, default_label) matches Some(after) ==> after.len() == (
        match kind {
            OpKind::Add => es.len() + 1int,
            OpKind::Remove => es.len() - 1,
            OpKind::Replace => es.len() as int,
        }),
{
    broadcast use vstd::seq_lib::group_to_multiset_ensures;

    let texts = entry_texts(es);
    lemma_first_match(texts, from);
    match (kind, first_match(texts, from)) {
        (OpKind::Add, _) => {
            assert(entry_texts(es.push((Some(default_label), to))) =~= texts.push(to));
        },
        (OpKind::Remove, Some(i)) => {
            assert(entry_texts(es.remove(i)) =~= texts.remove(i));
        },
        (OpKind::Replace, Some(i)) => {
            let changed = texts.update(i, to);
            assert(entry_texts(es.update(i, (es[i].0, to))) =~= changed);
            assert(changed.remove(i) == texts.remove(i));
            let m = changed.to_multiset();
            assert(changed[i] == to);
            assert(m.count(to) > 0) by {
                assert(changed.contains(to));
            }
            assert(m.remove(to) == texts.to_multiset().remove(from));
            assert(m =~= m.remove(to).insert(to));
        },
        _ => {},
    }
}

/// Carrying out an edit on entries and then viewing them gives the same as
/// carrying it out on their views with the view of the new entry.
pub proof fn law_edit_follows_views(es: Seq<Entry>, edit: ListEdit, new_entry: Entry)
    ensures
        entry_views(applied(es, edit, Some(new_entry))) == applied(
            entry_views(es),
            edit,
            Some(entry_view(new_entry)),
        ),
{
    match edit {
        ListEdit::Append => {
            assert(entry_views(es.push(new_entry)) =~= entry_views(es).push(entry_view(new_entry)));
        },
        ListEdit::RemoveAt(i) => {
            if i < es.len() {
                assert(entry_views(es.remove(i as int)) =~= entry_views(es).remove(i as int));
            }
        },
        ListEdit::ReplaceAt(i) => {
            if i < es.len() {
                assert(entry_views(es.update(i as int, new_entry)) =~= entry_views(es).update(
                    i as int,
                    entry_view(new_entry),
                ));
            }
        },
    }
}

/// Replacing text `a` with `b` and then `b` with `a`, each decided as an
/// email or URL change decides it and carried out with the label it plans,
/// gives the entries back, labels and order included, where `a` is among
/// the texts, `b` is not, and neither is empty.
pub proof fn law_replace_then_back_restores(
    es: Seq<(Option<Seq<char>>, Seq<char>)>,
    a: Seq<char>,
    b: Seq<char>,
    key: Seq<char>,
    what: Seq<char>,
    default_label: Seq<char>,
    contact_id: Seq<char>,
)
    requires
        es.len() <= usize::MAX,
        a.len() > 0,
        b.len() > 0,
        entry_texts(es).contains(a),
        !entry_texts(es).contains(b),
    ensures
        text_outcome(es, OpKind::Replace, a, b, key, what, default_label, contact_id) matches Ok(
            (e1, l1),
        ) && text_outcome(
            applied(es, e1, Some((l1, b))),
            OpKind::Replace,
            b,
            a,
            key,
            what,
            default_label,
            contact_id,
        ) matches Ok((e2, l2)) && applied(applied(es, e1, Some((l1, b))), e2, Some((l2, a))) == es,
{
    law_replace_back_restores(es, a, b, default_label);
    law_planned_edit_applies(es, OpKind::Replace, a, b, default_label);
    lemma_first_match(entry_texts(es), a);
    let e1 = planned_edit(entry_texts(es), OpKind::Replace, a)->0;
    let l1 = written_label(es, e1, default_label);
    let changed = applied(es, e1, Some((l1, b)));
    assert(changed.len() == es.len());
    law_planned_edit_applies(changed, OpKind::Replace, b, a, default_label);
    lemma_first_match(entry_texts(changed), b);
}

} // verus!
