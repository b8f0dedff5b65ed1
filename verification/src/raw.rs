//! Typed reading of a configuration document: each section becomes a raw
//! record whose fields are absent (`None`) when the key is missing or null,
//! and the whole read fails, naming the key, when a present field has the
//! wrong JSON type.
//!
//! A record is written as a JSON object, or as a JSON array that holds its
//! fields in declaration order (missing trailing elements are absent; more
//! elements than fields is an error).
//!
//! The document is read from the parsed `serde_json::Value`, so two things
//! differ from a typed deserializer reading the text: a key repeated in one
//! object is accepted, the last occurrence kept, where a typed reader
//! refuses it as a duplicate field; and the error texts are the ones below,
//! without line and column.

use vstd::prelude::*;
use crate::json::{Json, JsonKind, JsonNumber, json_tree, member, object_member, json_kind, json_bool, json_string, json_number, json_array_len, json_array_item, json_clone};
use crate::models::{IsolationSessionUser, IsolationSessionUserView, LaunchMethod, opt_view, strings_view};
use crate::text::{to_owned_string, str_eq};

verus! {

// ---------------------------------------------------------------------------
// Field readers
// ---------------------------------------------------------------------------

/// A member of an object, a null member counting as absent.
pub open spec fn present(j: Json, key: Seq<char>) -> Option<Json> {
    match member(j, key) {
        Some(Json::Null) => None,
        m => m,
    }
}

/// A record (a struct of the document) is written as an object, or as an
/// array that holds its fields in declaration order.
pub open spec fn is_record(j: Json) -> bool {
    j is Object || j is Array
}

/// Field `key` of a record, the `i`-th in declaration order: the member of
/// an object or the `i`-th element of an array; null or missing is absent.
pub open spec fn slot(j: Json, key: Seq<char>, i: int) -> Option<Json> {
    match j {
        Json::Array(a) => if 0 <= i < a.len() && !(a[i] is Null) { Some(a[i]) } else { None },
        _ => present(j, key),
    }
}

/// Field `key` of a record as written, a null value included.
pub open spec fn slot_required(j: Json, key: Seq<char>, i: int) -> Option<Json> {
    match j {
        Json::Array(a) => if 0 <= i < a.len() { Some(a[i]) } else { None },
        _ => member(j, key),
    }
}

/// An array with more elements than its record has fields.
pub open spec fn overlong(j: Json, n: nat) -> bool {
    match j {
        Json::Array(a) => a.len() > n,
        _ => false,
    }
}

/// The error text of a record written as an array with too many elements.
pub open spec fn too_many_elements() -> Seq<char> {
    "invalid length: too many elements in sequence"@
}

pub(crate) fn too_many_elements_msg() -> (r: String)
    ensures
        r@ == too_many_elements(),
{
    to_owned_string("invalid length: too many elements in sequence")
}

pub(crate) fn is_record_exec(v: &serde_json::Value) -> (r: bool)
    ensures
        r == is_record(json_tree(*v)),
{
    let k = json_kind(v);
    k == JsonKind::Object || k == JsonKind::Array
}

pub(crate) fn overlong_exec(v: &serde_json::Value, n: usize) -> (r: bool)
    ensures
        r == overlong(json_tree(*v), n as nat),
{
    if json_kind(v) == JsonKind::Array {
        json_array_len(v) > n
    } else {
        false
    }
}

/// An optional boolean field; `None` when the value has the wrong type.
pub open spec fn field_bool(m: Option<Json>) -> Option<Option<bool>> {
    match m {
        None => Some(None),
        Some(Json::Bool(b)) => Some(Some(b)),
        _ => None,
    }
}

/// An optional string field.
pub open spec fn field_str(m: Option<Json>) -> Option<Option<Seq<char>>> {
    match m {
        None => Some(None),
        Some(Json::Str(s)) => Some(Some(s)),
        _ => None,
    }
}

/// An optional 32-bit unsigned field: a non-negative integer that fits.
pub open spec fn field_u32(m: Option<Json>) -> Option<Option<u32>> {
    match m {
        None => Some(None),
        Some(Json::Number(JsonNumber::PosInt(n))) => if n <= u32::MAX { Some(Some(n as u32)) } else { None },
        _ => None,
    }
}

/// An optional 64-bit unsigned field.
pub open spec fn field_u64(m: Option<Json>) -> Option<Option<u64>> {
    match m {
        None => Some(None),
        Some(Json::Number(JsonNumber::PosInt(n))) => Some(Some(n)),
        _ => None,
    }
}

/// A required 16-bit unsigned field (a null or missing value is an error).
pub open spec fn field_u16_required(m: Option<Json>) -> Option<u16> {
    match m {
        Some(Json::Number(JsonNumber::PosInt(n))) => if n <= u16::MAX { Some(n as u16) } else { None },
        _ => None,
    }
}

/// A required string field (a null or missing value is an error).
pub open spec fn field_str_required(m: Option<Json>) -> Option<Seq<char>> {
    match m {
        Some(Json::Str(s)) => Some(s),
        _ => None,
    }
}

pub open spec fn all_strings(a: Seq<Json>) -> bool {
    forall|i: int| 0 <= i < a.len() ==> #[trigger] a[i] is Str
}

pub open spec fn strings_of(a: Seq<Json>) -> Seq<Seq<char>> {
    a.map_values(|x: Json| x->Str_0)
}

/// An optional list of strings.
pub open spec fn field_strs(m: Option<Json>) -> Option<Option<Seq<Seq<char>>>> {
    match m {
        None => Some(None),
        Some(Json::Array(a)) => if all_strings(a) { Some(Some(strings_of(a))) } else { None },
        _ => None,
    }
}

/// An optional `LaunchMethod`, written as its lowercase name.
pub open spec fn field_launch(m: Option<Json>) -> Option<Option<LaunchMethod>> {
    match m {
        None => Some(None),
        Some(Json::Str(s)) => if s == "exec"@ {
            Some(Some(LaunchMethod::Exec))
        } else if s == "open"@ {
            Some(Some(LaunchMethod::Open))
        } else {
            None
        },
        _ => None,
    }
}

pub open spec fn opt_tree(r: Option<&serde_json::Value>) -> Option<Json> {
    match r {
        Some(v) => Some(json_tree(*v)),
        None => None,
    }
}

pub open spec fn oo_view(r: Option<Option<String>>) -> Option<Option<Seq<char>>> {
    match r {
        Some(Some(s)) => Some(Some(s@)),
        Some(None) => Some(None),
        None => None,
    }
}

pub open spec fn oo_strings_view(r: Option<Option<Vec<String>>>) -> Option<Option<Seq<Seq<char>>>> {
    match r {
        Some(Some(s)) => Some(Some(strings_view(s@))),
        Some(None) => Some(None),
        None => None,
    }
}

pub open spec fn opt_strings_view(r: Option<Vec<String>>) -> Option<Seq<Seq<char>>> {
    match r {
        Some(s) => Some(strings_view(s@)),
        None => None,
    }
}

/// The member named `key`, absent when missing or null.
pub(crate) fn get_present<'a>(v: &'a serde_json::Value, key: &str, i: usize) -> (r: Option<&'a serde_json::Value>)
    requires
        is_record(json_tree(*v)),
    ensures
        opt_tree(r) == slot(json_tree(*v), key@, i as int),
{
    if json_kind(v) == JsonKind::Array {
        if i < json_array_len(v) {
            let c = json_array_item(v, i);
            return if json_kind(c) == JsonKind::Null { None } else { Some(c) };
        }
        return None;
    }
    match object_member(v, key) {
        None => None,
        Some(c) => {
            if json_kind(c) == JsonKind::Null {
                None
            } else {
                Some(c)
            }
        },
    }
}

/// Field `key` of a record as written (see [`slot_required`]).
pub(crate) fn get_member<'a>(v: &'a serde_json::Value, key: &str, i: usize) -> (r: Option<&'a serde_json::Value>)
    requires
        is_record(json_tree(*v)),
    ensures
        opt_tree(r) == slot_required(json_tree(*v), key@, i as int),
{
    if json_kind(v) == JsonKind::Array {
        if i < json_array_len(v) {
            return Some(json_array_item(v, i));
        }
        return None;
    }
    object_member(v, key)
}

pub(crate) fn get_bool(v: &serde_json::Value, key: &str, i: usize) -> (r: Option<Option<bool>>)
    requires
        is_record(json_tree(*v)),
    ensures
        r == field_bool(slot(json_tree(*v), key@, i as int)),
{
    match get_present(v, key, i) {
        None => Some(None),
        Some(c) => if json_kind(c) == JsonKind::Bool { Some(Some(json_bool(c))) } else { None },
    }
}

pub(crate) fn get_str(v: &serde_json::Value, key: &str, i: usize) -> (r: Option<Option<String>>)
    requires
        is_record(json_tree(*v)),
    ensures
        oo_view(r) == field_str(slot(json_tree(*v), key@, i as int)),
{
    match get_present(v, key, i) {
        None => Some(None),
        Some(c) => if json_kind(c) == JsonKind::Str { Some(Some(json_string(c))) } else { None },
    }
}

pub(crate) fn get_u32(v: &serde_json::Value, key: &str, i: usize) -> (r: Option<Option<u32>>)
    requires
        is_record(json_tree(*v)),
    ensures
        r == field_u32(slot(json_tree(*v), key@, i as int)),
{
    match get_present(v, key, i) {
        None => Some(None),
        Some(c) => if json_kind(c) == JsonKind::Number {
            match json_number(c) {
                JsonNumber::PosInt(n) => if n <= 0xffff_ffffu64 { Some(Some(n as u32)) } else { None },
                _ => None,
            }
        } else {
            None
        },
    }
}

pub(crate) fn get_u64(v: &serde_json::Value, key: &str, i: usize) -> (r: Option<Option<u64>>)
    requires
        is_record(json_tree(*v)),
    ensures
        r == field_u64(slot(json_tree(*v), key@, i as int)),
{
    match get_present(v, key, i) {
        None => Some(None),
        Some(c) => if json_kind(c) == JsonKind::Number {
            match json_number(c) {
                JsonNumber::PosInt(n) => Some(Some(n)),
                _ => None,
            }
        } else {
            None
        },
    }
}

pub(crate) fn get_u16_required(v: &serde_json::Value, key: &str, i: usize) -> (r: Option<u16>)
    requires
        is_record(json_tree(*v)),
    ensures
        r == field_u16_required(slot_required(json_tree(*v), key@, i as int)),
{
    match get_member(v, key, i) {
        None => None,
        Some(c) => if json_kind(c) == JsonKind::Number {
            match json_number(c) {
                JsonNumber::PosInt(n) => if n <= 0xffffu64 { Some(n as u16) } else { None },
                _ => None,
            }
        } else {
            None
        },
    }
}

pub(crate) fn get_str_required(v: &serde_json::Value, key: &str, i: usize) -> (r: Option<String>)
    requires
        is_record(json_tree(*v)),
    ensures
        opt_view(r) == field_str_required(slot_required(json_tree(*v), key@, i as int)),
{
    match get_member(v, key, i) {
        None => None,
        Some(c) => if json_kind(c) == JsonKind::Str { Some(json_string(c)) } else { None },
    }
}

/// The strings of an array value, or `None` if some element is not a string.
pub(crate) fn array_strings(v: &serde_json::Value) -> (r: Option<Vec<String>>)
    requires
        json_tree(*v) is Array,
    ensures
        match r {
            Some(s) => all_strings(json_tree(*v)->Array_0) && strings_view(s@) == strings_of(json_tree(*v)->Array_0),
            None => !all_strings(json_tree(*v)->Array_0),
        },
{
    let n = json_array_len(v);
    let ghost a = json_tree(*v)->Array_0;
    let mut out: Vec<String> = Vec::new();
    let mut i: usize = 0;
    while i < n
        invariant
            json_tree(*v) is Array,
            a == json_tree(*v)->Array_0,
            n == a.len(),
            i <= n,
            out@.len() == i,
            forall|k: int| 0 <= k < i ==> #[trigger] a[k] is Str,
            forall|k: int| 0 <= k < i ==> #[trigger] out@[k]@ == a[k]->Str_0,
        decreases n - i,
    {
        let c = json_array_item(v, i);
        if json_kind(c) != JsonKind::Str {
            return None;
        }
        out.push(json_string(c));
        i = i + 1;
    }
    assert(strings_view(out@) =~= strings_of(a));
    Some(out)
}

pub(crate) fn get_strs(v: &serde_json::Value, key: &str, i: usize) -> (r: Option<Option<Vec<String>>>)
    requires
        is_record(json_tree(*v)),
    ensures
        oo_strings_view(r) == field_strs(slot(json_tree(*v), key@, i as int)),
{
    match get_present(v, key, i) {
        None => Some(None),
        Some(c) => if json_kind(c) == JsonKind::Array {
            match array_strings(c) {
                Some(s) => Some(Some(s)),
                None => None,
            }
        } else {
            None
        },
    }
}

pub(crate) fn get_launch(v: &serde_json::Value, key: &str, i: usize) -> (r: Option<Option<LaunchMethod>>)
    requires
        is_record(json_tree(*v)),
    ensures
        r == field_launch(slot(json_tree(*v), key@, i as int)),
{
    match get_present(v, key, i) {
        None => Some(None),
        Some(c) => if json_kind(c) == JsonKind::Str {
            let s = json_string(c);
            if str_eq(s.as_str(), "exec") {
                Some(Some(LaunchMethod::Exec))
            } else if str_eq(s.as_str(), "open") {
                Some(Some(LaunchMethod::Open))
            } else {
                None
            }
        } else {
            None
        },
    }
}

/// The error text of a field of the wrong type.
pub open spec fn bad_field(key: Seq<char>) -> Seq<char> {
    "invalid type or value for field `"@ + key + "`"@
}

pub(crate) fn bad_field_msg(key: &str) -> (r: String)
    ensures
        r@ == bad_field(key@),
{
    let mut s = to_owned_string("invalid type or value for field `");
    crate::text::push_str(&mut s, key);
    crate::text::push_str(&mut s, "`");
    s
}

// ---------------------------------------------------------------------------
// Raw records
// ---------------------------------------------------------------------------

/// `process`: command line, working directory, environment, timeout.
pub struct RawProcessOf<S, L> {
    pub command_line: Option<S>,
    pub cwd: Option<S>,
    pub env: Option<L>,
    pub timeout: Option<u32>,
}

pub type RawProcess = RawProcessOf<String, Vec<String>>;
pub type RawProcessV = RawProcessOf<Seq<char>, Seq<Seq<char>>>;

impl View for RawProcessOf<String, Vec<String>> {
    type V = RawProcessV;

    open spec fn view(&self) -> RawProcessV {
        RawProcessOf {
            command_line: opt_view(self.command_line),
            cwd: opt_view(self.cwd),
            env: opt_strings_view(self.env),
            timeout: self.timeout,
        }
    }
}

pub open spec fn de_process(j: Json) -> Result<RawProcessV, Seq<char>> {
    if overlong(j, 4) {
        Err(too_many_elements())
    } else {
        let a = field_str(slot(j, "commandLine"@, 0));
        let b = field_str(slot(j, "cwd"@, 1));
        let c = field_strs(slot(j, "env"@, 2));
        let d = field_u32(slot(j, "timeout"@, 3));
        if a is None { Err(bad_field("commandLine"@)) }
        else if b is None { Err(bad_field("cwd"@)) }
        else if c is None { Err(bad_field("env"@)) }
        else if d is None { Err(bad_field("timeout"@)) }
        else { Ok(RawProcessOf { command_line: a->0, cwd: b->0, env: c->0, timeout: d->0 }) }
    }
}

/// The result of a typed read, by view.
pub open spec fn res_view<T: View>(r: Result<T, String>) -> Result<T::V, Seq<char>> {
    match r {
        Ok(x) => Ok(x@),
        Err(e) => Err(e@),
    }
}

pub(crate) fn read_process(v: &serde_json::Value) -> (r: Result<RawProcess, String>)
    requires
        is_record(json_tree(*v)),
    ensures
        res_view(r) == de_process(json_tree(*v)),
{
    if overlong_exec(v, 4) {
        return Err(too_many_elements_msg());
    }
    let a = get_str(v, "commandLine", 0);
    let b = get_str(v, "cwd", 1);
    let c = get_strs(v, "env", 2);
    let d = get_u32(v, "timeout", 3);
    match (a, b, c, d) {
        (Some(a), Some(b), Some(c), Some(d)) => Ok(RawProcessOf { command_line: a, cwd: b, env: c, timeout: d }),
        (None, _, _, _) => Err(bad_field_msg("commandLine")),
        (_, None, _, _) => Err(bad_field_msg("cwd")),
        (_, _, None, _) => Err(bad_field_msg("env")),
        (_, _, _, None) => Err(bad_field_msg("timeout")),
    }
}


/// An optional section: absent, an object read by `de`, or (anything else)
/// an error naming the key.
pub open spec fn section<T>(m: Option<Json>, key: Seq<char>, de: spec_fn(Json) -> Result<T, Seq<char>>) -> Result<Option<T>, Seq<char>> {
    match m {
        None => Ok(None),
        Some(j) => if is_record(j) {
            match de(j) {
                Ok(x) => Ok(Some(x)),
                Err(e) => Err(e),
            }
        } else {
            Err(bad_field(key))
        },
    }
}

pub open spec fn res_opt_view<T: View>(r: Result<Option<T>, String>) -> Result<Option<T::V>, Seq<char>> {
    match r {
        Ok(Some(x)) => Ok(Some(x@)),
        Ok(None) => Ok(None),
        Err(e) => Err(e@),
    }
}

pub open spec fn ov<T: View>(o: Option<T>) -> Option<T::V> {
    match o {
        Some(x) => Some(x@),
        None => None,
    }
}

/// A field known by two names (a name and its legacy alias): giving both is
/// an error; otherwise whichever is present, null counting as absent.
pub open spec fn present_alias(j: Json, key: Seq<char>, alias: Seq<char>, i: int) -> Option<Option<Json>> {
    if j is Array {
        Some(slot(j, key, i))
    } else if member(j, key) is Some && member(j, alias) is Some {
        None
    } else if member(j, key) is Some {
        Some(present(j, key))
    } else {
        Some(present(j, alias))
    }
}

pub(crate) fn get_present_alias<'a>(v: &'a serde_json::Value, key: &str, alias: &str, i: usize) -> (r: Option<Option<&'a serde_json::Value>>)
    requires
        is_record(json_tree(*v)),
    ensures
        match r {
            None => present_alias(json_tree(*v), key@, alias@, i as int) is None,
            Some(o) => present_alias(json_tree(*v), key@, alias@, i as int) == Some(opt_tree(o)),
        },
{
    if json_kind(v) == JsonKind::Array {
        return Some(get_present(v, key, i));
    }
    let a = object_member(v, key);
    let b = object_member(v, alias);
    if a.is_some() && b.is_some() {
        None
    } else if a.is_some() {
        Some(get_present(v, key, i))
    } else {
        Some(get_present(v, alias, i))
    }
}

// --- processContainer.ui ---

/// The `processContainer.ui` section as written.
pub struct RawBaseProcessUiOf<S> {
    pub isolation: Option<S>,
    pub desktop_system_control: Option<bool>,
    pub system_settings: Option<S>,
    pub ime: Option<bool>,
}

pub type RawBaseProcessUi = RawBaseProcessUiOf<String>;
pub type RawBaseProcessUiV = RawBaseProcessUiOf<Seq<char>>;

impl View for RawBaseProcessUiOf<String> {
    type V = RawBaseProcessUiV;

    open spec fn view(&self) -> RawBaseProcessUiV {
        RawBaseProcessUiOf {
            isolation: opt_view(self.isolation),
            desktop_system_control: self.desktop_system_control,
            system_settings: opt_view(self.system_settings),
            ime: self.ime,
        }
    }
}

pub open spec fn de_base_ui(j: Json) -> Result<RawBaseProcessUiV, Seq<char>> {
    if overlong(j, 4) {
        Err(too_many_elements())
    } else {
        let a = field_str(slot(j, "isolation"@, 0));
        let b = field_bool(slot(j, "desktopSystemControl"@, 1));
        let c = field_str(slot(j, "systemSettings"@, 2));
        let d = field_bool(slot(j, "ime"@, 3));
        if a is None { Err(bad_field("isolation"@)) }
        else if b is None { Err(bad_field("desktopSystemControl"@)) }
        else if c is None { Err(bad_field("systemSettings"@)) }
        else if d is None { Err(bad_field("ime"@)) }
        else { Ok(RawBaseProcessUiOf { isolation: a->0, desktop_system_control: b->0, system_settings: c->0, ime: d->0 }) }
    }
}

pub(crate) fn read_base_ui(v: &serde_json::Value) -> (r: Result<RawBaseProcessUi, String>)
    requires
        is_record(json_tree(*v)),
    ensures
        res_view(r) == de_base_ui(json_tree(*v)),
{
    if overlong_exec(v, 4) {
        return Err(too_many_elements_msg());
    }
    match (get_str(v, "isolation", 0), get_bool(v, "desktopSystemControl", 1), get_str(v, "systemSettings", 2), get_bool(v, "ime", 3)) {
        (Some(a), Some(b), Some(c), Some(d)) => Ok(RawBaseProcessUiOf { isolation: a, desktop_system_control: b, system_settings: c, ime: d }),
        (None, _, _, _) => Err(bad_field_msg("isolation")),
        (_, None, _, _) => Err(bad_field_msg("desktopSystemControl")),
        (_, _, None, _) => Err(bad_field_msg("systemSettings")),
        (_, _, _, None) => Err(bad_field_msg("ime")),
    }
}

// --- processContainer ---

/// The `processContainer` section as written.
pub struct RawProcessContainerOf<S, L> {
    pub least_privilege: Option<bool>,
    pub learning_mode: Option<bool>,
    pub capabilities: Option<L>,
    pub ui: Option<RawBaseProcessUiOf<S>>,
}

pub type RawProcessContainer = RawProcessContainerOf<String, Vec<String>>;
pub type RawProcessContainerV = RawProcessContainerOf<Seq<char>, Seq<Seq<char>>>;

impl View for RawProcessContainerOf<String, Vec<String>> {
    type V = RawProcessContainerV;

    open spec fn view(&self) -> RawProcessContainerV {
        RawProcessContainerOf {
            least_privilege: self.least_privilege,
            learning_mode: self.learning_mode,
            capabilities: opt_strings_view(self.capabilities),
            ui: ov(self.ui),
        }
    }
}

pub open spec fn de_process_container(j: Json) -> Result<RawProcessContainerV, Seq<char>> {
    if overlong(j, 4) {
        Err(too_many_elements())
    } else {
        let a = field_bool(slot(j, "leastPrivilege"@, 0));
        let b = field_bool(slot(j, "learningMode"@, 1));
        let c = field_strs(slot(j, "capabilities"@, 2));
        let d = section(slot(j, "ui"@, 3), "ui"@, |x: Json| de_base_ui(x));
        if a is None { Err(bad_field("leastPrivilege"@)) }
        else if b is None { Err(bad_field("learningMode"@)) }
        else if c is None { Err(bad_field("capabilities"@)) }
        else if d is Err { Err(d->Err_0) }
        else { Ok(RawProcessContainerOf { least_privilege: a->0, learning_mode: b->0, capabilities: c->0, ui: d->Ok_0 }) }
    }
}

pub(crate) fn read_opt_base_ui(m: Option<&serde_json::Value>) -> (r: Result<Option<RawBaseProcessUi>, String>)
    ensures
        res_opt_view(r) == section(opt_tree(m), "ui"@, |x: Json| de_base_ui(x)),
{
    match m {
        None => Ok(None),
        Some(c) => if is_record_exec(c) {
            match read_base_ui(c) {
                Ok(x) => Ok(Some(x)),
                Err(e) => Err(e),
            }
        } else {
            Err(bad_field_msg("ui"))
        },
    }
}

pub(crate) fn read_process_container(v: &serde_json::Value) -> (r: Result<RawProcessContainer, String>)
    requires
        is_record(json_tree(*v)),
    ensures
        res_view(r) == de_process_container(json_tree(*v)),
{
    if overlong_exec(v, 4) {
        return Err(too_many_elements_msg());
    }
    let a = get_bool(v, "leastPrivilege", 0);
    let b = get_bool(v, "learningMode", 1);
    let c = get_strs(v, "capabilities", 2);
    let d = read_opt_base_ui(get_present(v, "ui", 3));
    match (a, b, c, d) {
        (Some(a), Some(b), Some(c), Ok(d)) => Ok(RawProcessContainerOf { least_privilege: a, learning_mode: b, capabilities: c, ui: d }),
        (None, _, _, _) => Err(bad_field_msg("leastPrivilege")),
        (_, None, _, _) => Err(bad_field_msg("learningMode")),
        (_, _, None, _) => Err(bad_field_msg("capabilities")),
        (_, _, _, Err(e)) => Err(e),
    }
}

// --- filesystem ---

/// The `filesystem` section as written.
pub struct RawFilesystemOf<L> {
    pub readwrite_paths: Option<L>,
    pub readonly_paths: Option<L>,
    pub denied_paths: Option<L>,
}

pub type RawFilesystem = RawFilesystemOf<Vec<String>>;
pub type RawFilesystemV = RawFilesystemOf<Seq<Seq<char>>>;

impl View for RawFilesystemOf<Vec<String>> {
    type V = RawFilesystemV;

    open spec fn view(&self) -> RawFilesystemV {
        RawFilesystemOf {
            readwrite_paths: opt_strings_view(self.readwrite_paths),
            readonly_paths: opt_strings_view(self.readonly_paths),
            denied_paths: opt_strings_view(self.denied_paths),
        }
    }
}

pub open spec fn de_filesystem(j: Json) -> Result<RawFilesystemV, Seq<char>> {
    if overlong(j, 3) {
        Err(too_many_elements())
    } else {
        let a = field_strs(slot(j, "readwritePaths"@, 0));
        let b = field_strs(slot(j, "readonlyPaths"@, 1));
        let c = field_strs(slot(j, "deniedPaths"@, 2));
        if a is None { Err(bad_field("readwritePaths"@)) }
        else if b is None { Err(bad_field("readonlyPaths"@)) }
        else if c is None { Err(bad_field("deniedPaths"@)) }
        else { Ok(RawFilesystemOf { readwrite_paths: a->0, readonly_paths: b->0, denied_paths: c->0 }) }
    }
}

pub(crate) fn read_filesystem(v: &serde_json::Value) -> (r: Result<RawFilesystem, String>)
    requires
        is_record(json_tree(*v)),
    ensures
        res_view(r) == de_filesystem(json_tree(*v)),
{
    if overlong_exec(v, 3) {
        return Err(too_many_elements_msg());
    }
    match (get_strs(v, "readwritePaths", 0), get_strs(v, "readonlyPaths", 1), get_strs(v, "deniedPaths", 2)) {
        (Some(a), Some(b), Some(c)) => Ok(RawFilesystemOf { readwrite_paths: a, readonly_paths: b, denied_paths: c }),
        (None, _, _) => Err(bad_field_msg("readwritePaths")),
        (_, None, _) => Err(bad_field_msg("readonlyPaths")),
        (_, _, None) => Err(bad_field_msg("deniedPaths")),
    }
}

// --- fallback ---

/// The `fallback` section as written.
#[derive(Clone, Copy)]
pub struct RawFallback {
    pub allow_dacl_mutation: Option<bool>,
}

pub open spec fn de_fallback(j: Json) -> Result<RawFallback, Seq<char>> {
    if overlong(j, 1) {
        Err(too_many_elements())
    } else {
        let a = field_bool(slot(j, "allowDaclMutation"@, 0));
        if a is None { Err(bad_field("allowDaclMutation"@)) } else { Ok(RawFallback { allow_dacl_mutation: a->0 }) }
    }
}

pub(crate) fn read_fallback(v: &serde_json::Value) -> (r: Result<RawFallback, String>)
    requires
        is_record(json_tree(*v)),
    ensures
        match r { Ok(x) => de_fallback(json_tree(*v)) == Ok::<RawFallback, Seq<char>>(x), Err(e) => de_fallback(json_tree(*v)) == Err::<RawFallback, Seq<char>>(e@) },
{
    if overlong_exec(v, 1) {
        return Err(too_many_elements_msg());
    }
    match get_bool(v, "allowDaclMutation", 0) {
        Some(a) => Ok(RawFallback { allow_dacl_mutation: a }),
        None => Err(bad_field_msg("allowDaclMutation")),
    }
}

// --- network ---

/// The `network` section as written; `proxy` is kept as a JSON value.
pub struct RawNetworkOf<S, L, J> {
    pub default_policy: Option<S>,
    pub enforcement_mode: Option<S>,
    pub allow_local_network: Option<bool>,
    pub allowed_hosts: Option<L>,
    pub blocked_hosts: Option<L>,
    pub proxy: Option<J>,
}

pub type RawNetwork = RawNetworkOf<String, Vec<String>, serde_json::Value>;
pub type RawNetworkV = RawNetworkOf<Seq<char>, Seq<Seq<char>>, Json>;

pub open spec fn opt_json(o: Option<serde_json::Value>) -> Option<Json> {
    match o {
        Some(v) => Some(json_tree(v)),
        None => None,
    }
}

impl View for RawNetworkOf<String, Vec<String>, serde_json::Value> {
    type V = RawNetworkV;

    open spec fn view(&self) -> RawNetworkV {
        RawNetworkOf {
            default_policy: opt_view(self.default_policy),
            enforcement_mode: opt_view(self.enforcement_mode),
            allow_local_network: self.allow_local_network,
            allowed_hosts: opt_strings_view(self.allowed_hosts),
            blocked_hosts: opt_strings_view(self.blocked_hosts),
            proxy: opt_json(self.proxy),
        }
    }
}

pub open spec fn de_network(j: Json) -> Result<RawNetworkV, Seq<char>> {
    if overlong(j, 6) {
        Err(too_many_elements())
    } else {
        let a = field_str(slot(j, "defaultPolicy"@, 0));
        let b = field_str(slot(j, "enforcementMode"@, 1));
        let c = field_bool(slot(j, "allowLocalNetwork"@, 2));
        let d = field_strs(slot(j, "allowedHosts"@, 3));
        let e = field_strs(slot(j, "blockedHosts"@, 4));
        if a is None { Err(bad_field("defaultPolicy"@)) }
        else if b is None { Err(bad_field("enforcementMode"@)) }
        else if c is None { Err(bad_field("allowLocalNetwork"@)) }
        else if d is None { Err(bad_field("allowedHosts"@)) }
        else if e is None { Err(bad_field("blockedHosts"@)) }
        else {
            Ok(RawNetworkOf {
                default_policy: a->0,
                enforcement_mode: b->0,
                allow_local_network: c->0,
                allowed_hosts: d->0,
                blocked_hosts: e->0,
                proxy: slot(j, "proxy"@, 5),
            })
        }
    }
}

pub(crate) fn read_network(v: &serde_json::Value) -> (r: Result<RawNetwork, String>)
    requires
        is_record(json_tree(*v)),
    ensures
        res_view(r) == de_network(json_tree(*v)),
{
    if overlong_exec(v, 6) {
        return Err(too_many_elements_msg());
    }
    let a = get_str(v, "defaultPolicy", 0);
    let b = get_str(v, "enforcementMode", 1);
    let c = get_bool(v, "allowLocalNetwork", 2);
    let d = get_strs(v, "allowedHosts", 3);
    let e = get_strs(v, "blockedHosts", 4);
    let p = match get_present(v, "proxy", 5) {
        Some(x) => Some(json_clone(x)),
        None => None,
    };
    match (a, b, c, d, e) {
        (Some(a), Some(b), Some(c), Some(d), Some(e)) => Ok(RawNetworkOf {
            default_policy: a,
            enforcement_mode: b,
            allow_local_network: c,
            allowed_hosts: d,
            blocked_hosts: e,
            proxy: p,
        }),
        (None, _, _, _, _) => Err(bad_field_msg("defaultPolicy")),
        (_, None, _, _, _) => Err(bad_field_msg("enforcementMode")),
        (_, _, None, _, _) => Err(bad_field_msg("allowLocalNetwork")),
        (_, _, _, None, _) => Err(bad_field_msg("allowedHosts")),
        (_, _, _, _, None) => Err(bad_field_msg("blockedHosts")),
    }
}

// --- lxc ---

/// The `lxc` section as written.
pub struct RawLxcOf<S> {
    pub distribution: Option<S>,
    pub release: Option<S>,
}

pub type RawLxc = RawLxcOf<String>;
pub type RawLxcV = RawLxcOf<Seq<char>>;

impl View for RawLxcOf<String> {
    type V = RawLxcV;

    open spec fn view(&self) -> RawLxcV {
        RawLxcOf { distribution: opt_view(self.distribution), release: opt_view(self.release) }
    }
}

pub open spec fn de_lxc(j: Json) -> Result<RawLxcV, Seq<char>> {
    if overlong(j, 2) {
        Err(too_many_elements())
    } else {
        let a = field_str(slot(j, "distribution"@, 0));
        let b = field_str(slot(j, "release"@, 1));
        if a is None { Err(bad_field("distribution"@)) }
        else if b is None { Err(bad_field("release"@)) }
        else { Ok(RawLxcOf { distribution: a->0, release: b->0 }) }
    }
}

pub(crate) fn read_lxc(v: &serde_json::Value) -> (r: Result<RawLxc, String>)
    requires
        is_record(json_tree(*v)),
    ensures
        res_view(r) == de_lxc(json_tree(*v)),
{
    if overlong_exec(v, 2) {
        return Err(too_many_elements_msg());
    }
    match (get_str(v, "distribution", 0), get_str(v, "release", 1)) {
        (Some(a), Some(b)) => Ok(RawLxcOf { distribution: a, release: b }),
        (None, _) => Err(bad_field_msg("distribution")),
        (_, None) => Err(bad_field_msg("release")),
    }
}

// --- lifecycle ---

/// The `lifecycle` section as written.
#[derive(Clone, Copy)]
pub struct RawLifecycle {
    pub destroy_on_exit: Option<bool>,
    pub preserve_policy: Option<bool>,
}

pub open spec fn de_lifecycle(j: Json) -> Result<RawLifecycle, Seq<char>> {
    if overlong(j, 2) {
        Err(too_many_elements())
    } else {
        let a = field_bool(slot(j, "destroyOnExit"@, 0));
        let b = field_bool(slot(j, "preservePolicy"@, 1));
        if a is None { Err(bad_field("destroyOnExit"@)) }
        else if b is None { Err(bad_field("preservePolicy"@)) }
        else { Ok(RawLifecycle { destroy_on_exit: a->0, preserve_policy: b->0 }) }
    }
}

pub(crate) fn read_lifecycle(v: &serde_json::Value) -> (r: Result<RawLifecycle, String>)
    requires
        is_record(json_tree(*v)),
    ensures
        match r { Ok(x) => de_lifecycle(json_tree(*v)) == Ok::<RawLifecycle, Seq<char>>(x), Err(e) => de_lifecycle(json_tree(*v)) == Err::<RawLifecycle, Seq<char>>(e@) },
{
    if overlong_exec(v, 2) {
        return Err(too_many_elements_msg());
    }
    match (get_bool(v, "destroyOnExit", 0), get_bool(v, "preservePolicy", 1)) {
        (Some(a), Some(b)) => Ok(RawLifecycle { destroy_on_exit: a, preserve_policy: b }),
        (None, _) => Err(bad_field_msg("destroyOnExit")),
        (_, None) => Err(bad_field_msg("preservePolicy")),
    }
}

// --- ui ---

/// The `ui` section as written.
pub struct RawUiOf<S> {
    pub disable: Option<bool>,
    pub clipboard: Option<S>,
    pub injection: Option<bool>,
}

pub type RawUi = RawUiOf<String>;
pub type RawUiV = RawUiOf<Seq<char>>;

impl View for RawUiOf<String> {
    type V = RawUiV;

    open spec fn view(&self) -> RawUiV {
        RawUiOf { disable: self.disable, clipboard: opt_view(self.clipboard), injection: self.injection }
    }
}

pub open spec fn de_ui(j: Json) -> Result<RawUiV, Seq<char>> {
    if overlong(j, 3) {
        Err(too_many_elements())
    } else {
        let a = field_bool(slot(j, "disable"@, 0));
        let b = field_str(slot(j, "clipboard"@, 1));
        let c = field_bool(slot(j, "injection"@, 2));
        if a is None { Err(bad_field("disable"@)) }
        else if b is None { Err(bad_field("clipboard"@)) }
        else if c is None { Err(bad_field("injection"@)) }
        else { Ok(RawUiOf { disable: a->0, clipboard: b->0, injection: c->0 }) }
    }
}

pub(crate) fn read_ui(v: &serde_json::Value) -> (r: Result<RawUi, String>)
    requires
        is_record(json_tree(*v)),
    ensures
        res_view(r) == de_ui(json_tree(*v)),
{
    if overlong_exec(v, 3) {
        return Err(too_many_elements_msg());
    }
    match (get_bool(v, "disable", 0), get_str(v, "clipboard", 1), get_bool(v, "injection", 2)) {
        (Some(a), Some(b), Some(c)) => Ok(RawUiOf { disable: a, clipboard: b, injection: c }),
        (None, _, _) => Err(bad_field_msg("disable")),
        (_, None, _) => Err(bad_field_msg("clipboard")),
        (_, _, None) => Err(bad_field_msg("injection")),
    }
}


// --- experimental.windows_sandbox ---

/// The `experimental.windows_sandbox` section as written.
pub struct RawSandboxOf<S> {
    pub idle_timeout: Option<u32>,
    pub idle_timeout_ms: Option<u32>,
    pub daemon_pipe_name: Option<S>,
}

pub type RawSandbox = RawSandboxOf<String>;
pub type RawSandboxV = RawSandboxOf<Seq<char>>;

impl View for RawSandboxOf<String> {
    type V = RawSandboxV;

    open spec fn view(&self) -> RawSandboxV {
        RawSandboxOf { idle_timeout: self.idle_timeout, idle_timeout_ms: self.idle_timeout_ms, daemon_pipe_name: opt_view(self.daemon_pipe_name) }
    }
}

pub open spec fn de_sandbox(j: Json) -> Result<RawSandboxV, Seq<char>> {
    if overlong(j, 3) {
        Err(too_many_elements())
    } else {
        let a = field_u32(slot(j, "idleTimeout"@, 0));
        let b = field_u32(slot(j, "idleTimeoutMs"@, 1));
        let c = field_str(slot(j, "daemonPipeName"@, 2));
        if a is None { Err(bad_field("idleTimeout"@)) }
        else if b is None { Err(bad_field("idleTimeoutMs"@)) }
        else if c is None { Err(bad_field("daemonPipeName"@)) }
        else { Ok(RawSandboxOf { idle_timeout: a->0, idle_timeout_ms: b->0, daemon_pipe_name: c->0 }) }
    }
}

pub(crate) fn read_sandbox(v: &serde_json::Value) -> (r: Result<RawSandbox, String>)
    requires
        is_record(json_tree(*v)),
    ensures
        res_view(r) == de_sandbox(json_tree(*v)),
{
    if overlong_exec(v, 3) {
        return Err(too_many_elements_msg());
    }
    match (get_u32(v, "idleTimeout", 0), get_u32(v, "idleTimeoutMs", 1), get_str(v, "daemonPipeName", 2)) {
        (Some(a), Some(b), Some(c)) => Ok(RawSandboxOf { idle_timeout: a, idle_timeout_ms: b, daemon_pipe_name: c }),
        (None, _, _) => Err(bad_field_msg("idleTimeout")),
        (_, None, _) => Err(bad_field_msg("idleTimeoutMs")),
        (_, _, None) => Err(bad_field_msg("daemonPipeName")),
    }
}

// --- experimental.wslc.portMappings[] ---

/// One entry of `experimental.wslc.portMappings`: both ports are required.
pub struct RawPortMappingOf<S> {
    pub windows_port: u16,
    pub container_port: u16,
    pub protocol: Option<S>,
}

pub type RawPortMapping = RawPortMappingOf<String>;
pub type RawPortMappingV = RawPortMappingOf<Seq<char>>;

impl View for RawPortMappingOf<String> {
    type V = RawPortMappingV;

    open spec fn view(&self) -> RawPortMappingV {
        RawPortMappingOf { windows_port: self.windows_port, container_port: self.container_port, protocol: opt_view(self.protocol) }
    }
}

/// One port mapping: `windowsPort` and `containerPort` are required.
pub open spec fn de_port_mapping(j: Json) -> Result<RawPortMappingV, Seq<char>> {
    if overlong(j, 3) {
        Err(too_many_elements())
    } else {
        if !is_record(j) {
            Err(bad_field("portMappings"@))
        } else {
            let a = field_u16_required(slot_required(j, "windowsPort"@, 0));
            let b = field_u16_required(slot_required(j, "containerPort"@, 1));
            let c = field_str(slot(j, "protocol"@, 2));
            if a is None { Err(bad_field("windowsPort"@)) }
            else if b is None { Err(bad_field("containerPort"@)) }
            else if c is None { Err(bad_field("protocol"@)) }
            else { Ok(RawPortMappingOf { windows_port: a->0, container_port: b->0, protocol: c->0 }) }
        }
    }
}

pub(crate) fn read_port_mapping(v: &serde_json::Value) -> (r: Result<RawPortMapping, String>)
    ensures
        res_view(r) == de_port_mapping(json_tree(*v)),
{
    if overlong_exec(v, 3) {
        return Err(too_many_elements_msg());
    }
    if !is_record_exec(v) {
        return Err(bad_field_msg("portMappings"));
    }
    match (get_u16_required(v, "windowsPort", 0), get_u16_required(v, "containerPort", 1), get_str(v, "protocol", 2)) {
        (Some(a), Some(b), Some(c)) => Ok(RawPortMappingOf { windows_port: a, container_port: b, protocol: c }),
        (None, _, _) => Err(bad_field_msg("windowsPort")),
        (_, None, _) => Err(bad_field_msg("containerPort")),
        (_, _, None) => Err(bad_field_msg("protocol")),
    }
}

/// All elements read as port mappings; the first failing element's error.
pub open spec fn de_port_mappings(a: Seq<Json>) -> Result<Seq<RawPortMappingV>, Seq<char>>
    decreases a.len(),
{
    if a.len() == 0 {
        Ok(Seq::empty())
    } else {
        match de_port_mappings(a.drop_last()) {
            Err(e) => Err(e),
            Ok(prev) => match de_port_mapping(a.last()) {
                Err(e) => Err(e),
                Ok(m) => Ok(prev.push(m)),
            },
        }
    }
}

pub open spec fn mapping_views(v: Seq<RawPortMapping>) -> Seq<RawPortMappingV> {
    v.map_values(|m: RawPortMapping| m@)
}

pub open spec fn field_mappings(m: Option<Json>) -> Result<Option<Seq<RawPortMappingV>>, Seq<char>> {
    match m {
        None => Ok(None),
        Some(Json::Array(a)) => match de_port_mappings(a) {
            Ok(x) => Ok(Some(x)),
            Err(e) => Err(e),
        },
        _ => Err(bad_field("portMappings"@)),
    }
}

pub(crate) fn read_port_mappings(m: Option<&serde_json::Value>) -> (r: Result<Option<Vec<RawPortMapping>>, String>)
    ensures
        match r {
            Ok(Some(x)) => field_mappings(opt_tree(m)) == Ok::<Option<Seq<RawPortMappingV>>, Seq<char>>(Some(mapping_views(x@))),
            Ok(None) => field_mappings(opt_tree(m)) == Ok::<Option<Seq<RawPortMappingV>>, Seq<char>>(None),
            Err(e) => field_mappings(opt_tree(m)) == Err::<Option<Seq<RawPortMappingV>>, Seq<char>>(e@),
        },
{
    match m {
        None => Ok(None),
        Some(v) => read_port_mappings_of(v),
    }
}

fn read_port_mappings_of(v: &serde_json::Value) -> (r: Result<Option<Vec<RawPortMapping>>, String>)
    ensures
        match r {
            Ok(Some(x)) => field_mappings(Some(json_tree(*v))) == Ok::<Option<Seq<RawPortMappingV>>, Seq<char>>(Some(mapping_views(x@))),
            Ok(None) => false,
            Err(e) => field_mappings(Some(json_tree(*v))) == Err::<Option<Seq<RawPortMappingV>>, Seq<char>>(e@),
        },
{
    if json_kind(v) != JsonKind::Array {
        return Err(bad_field_msg("portMappings"));
    }
    let n = json_array_len(v);
    let ghost a = json_tree(*v)->Array_0;
    let mut out: Vec<RawPortMapping> = Vec::new();
    let mut i: usize = 0;
    assert(a.take(0).len() == 0);
    assert(mapping_views(out@) =~= Seq::empty());
    while i < n
        invariant
            json_tree(*v) is Array,
            a == json_tree(*v)->Array_0,
            n == a.len(),
            i <= n,
            de_port_mappings(a.take(i as int)) == Ok::<Seq<RawPortMappingV>, Seq<char>>(mapping_views(out@)),
        decreases n - i,
    {
        let c = json_array_item(v, i);
        assert(a.take(i + 1).drop_last() =~= a.take(i as int));
        assert(a.take(i + 1).last() == a[i as int]);
        let ghost prev = out@;
        match read_port_mapping(c) {
            Ok(x) => {
                out.push(x);
                assert(out@.drop_last() =~= prev);
                assert(mapping_views(out@) =~= mapping_views(prev).push(x@));
                assert(de_port_mappings(a.take(i + 1)) == Ok::<Seq<RawPortMappingV>, Seq<char>>(mapping_views(prev).push(x@)));
            },
            Err(e) => {
                assert(de_port_mappings(a.take(i + 1)) == Err::<Seq<RawPortMappingV>, Seq<char>>(e@));
                proof { lemma_mappings_prefix_err(a, (i + 1) as int); }
                assert(de_port_mappings(a) == Err::<Seq<RawPortMappingV>, Seq<char>>(e@));
                return Err(e);
            },
        }
        i = i + 1;
    }
    assert(a.take(n as int) =~= a);
    Ok(Some(out))
}

proof fn lemma_mappings_prefix_err(a: Seq<Json>, k: int)
    requires
        0 <= k <= a.len(),
        de_port_mappings(a.take(k)) is Err,
    ensures
        de_port_mappings(a) == de_port_mappings(a.take(k)),
    decreases a.len() - k,
{
    if k < a.len() {
        assert(a.take(k + 1).drop_last() =~= a.take(k));
        lemma_mappings_prefix_err(a, k + 1);
    } else {
        assert(a.take(k) =~= a);
    }
}

// --- experimental.wslc ---

/// The `experimental.wslc` section as written.
pub struct RawContainerConfigOf<S, M> {
    pub target_os: Option<S>,
    pub image: Option<S>,
    pub image_tar_path: Option<S>,
    pub cpu_count: Option<u32>,
    pub memory_mb: Option<u64>,
    pub gpu: Option<bool>,
    pub storage_path: Option<S>,
    pub port_mappings: Option<M>,
}

pub type RawContainerConfig = RawContainerConfigOf<String, Vec<RawPortMapping>>;
pub type RawContainerConfigV = RawContainerConfigOf<Seq<char>, Seq<RawPortMappingV>>;

impl View for RawContainerConfigOf<String, Vec<RawPortMapping>> {
    type V = RawContainerConfigV;

    open spec fn view(&self) -> RawContainerConfigV {
        RawContainerConfigOf {
            target_os: opt_view(self.target_os),
            image: opt_view(self.image),
            image_tar_path: opt_view(self.image_tar_path),
            cpu_count: self.cpu_count,
            memory_mb: self.memory_mb,
            gpu: self.gpu,
            storage_path: opt_view(self.storage_path),
            port_mappings: match self.port_mappings { Some(v) => Some(mapping_views(v@)), None => None },
        }
    }
}

pub open spec fn de_container(j: Json) -> Result<RawContainerConfigV, Seq<char>> {
    if overlong(j, 8) {
        Err(too_many_elements())
    } else {
        let a = field_str(slot(j, "targetOs"@, 0));
        let b = field_str(slot(j, "image"@, 1));
        let c = field_str(slot(j, "imageTarPath"@, 2));
        let d = field_u32(slot(j, "cpuCount"@, 3));
        let e = field_u64(slot(j, "memoryMb"@, 4));
        let f = field_bool(slot(j, "gpu"@, 5));
        let g = field_str(slot(j, "storagePath"@, 6));
        let h = field_mappings(slot(j, "portMappings"@, 7));
        if a is None { Err(bad_field("targetOs"@)) }
        else if b is None { Err(bad_field("image"@)) }
        else if c is None { Err(bad_field("imageTarPath"@)) }
        else if d is None { Err(bad_field("cpuCount"@)) }
        else if e is None { Err(bad_field("memoryMb"@)) }
        else if f is None { Err(bad_field("gpu"@)) }
        else if g is None { Err(bad_field("storagePath"@)) }
        else if h is Err { Err(h->Err_0) }
        else {
            Ok(RawContainerConfigOf {
                target_os: a->0,
                image: b->0,
                image_tar_path: c->0,
                cpu_count: d->0,
                memory_mb: e->0,
                gpu: f->0,
                storage_path: g->0,
                port_mappings: h->Ok_0,
            })
        }
    }
}

pub(crate) fn read_container(v: &serde_json::Value) -> (r: Result<RawContainerConfig, String>)
    requires
        is_record(json_tree(*v)),
    ensures
        res_view(r) == de_container(json_tree(*v)),
{
    if overlong_exec(v, 8) {
        return Err(too_many_elements_msg());
    }
    let a = get_str(v, "targetOs", 0);
    let b = get_str(v, "image", 1);
    let c = get_str(v, "imageTarPath", 2);
    let d = get_u32(v, "cpuCount", 3);
    let e = get_u64(v, "memoryMb", 4);
    let f = get_bool(v, "gpu", 5);
    let g = get_str(v, "storagePath", 6);
    let h = read_port_mappings(get_present(v, "portMappings", 7));
    if a.is_none() { return Err(bad_field_msg("targetOs")); }
    if b.is_none() { return Err(bad_field_msg("image")); }
    if c.is_none() { return Err(bad_field_msg("imageTarPath")); }
    if d.is_none() { return Err(bad_field_msg("cpuCount")); }
    if e.is_none() { return Err(bad_field_msg("memoryMb")); }
    if f.is_none() { return Err(bad_field_msg("gpu")); }
    if g.is_none() { return Err(bad_field_msg("storagePath")); }
    match h {
        Err(x) => Err(x),
        Ok(h) => Ok(RawContainerConfigOf {
            target_os: a.unwrap(),
            image: b.unwrap(),
            image_tar_path: c.unwrap(),
            cpu_count: d.unwrap(),
            memory_mb: e.unwrap(),
            gpu: f.unwrap(),
            storage_path: g.unwrap(),
            port_mappings: h,
        }),
    }
}

// --- experimental.test ---

pub open spec fn de_test(j: Json) -> Result<Option<Seq<char>>, Seq<char>> {
    if overlong(j, 1) {
        Err(too_many_elements())
    } else {
        let a = field_str(slot(j, "message"@, 0));
        if a is None { Err(bad_field("message"@)) } else { Ok(a->0) }
    }
}

pub(crate) fn read_test(v: &serde_json::Value) -> (r: Result<Option<String>, String>)
    requires
        is_record(json_tree(*v)),
    ensures
        match r {
            Ok(x) => de_test(json_tree(*v)) == Ok::<Option<Seq<char>>, Seq<char>>(opt_view(x)),
            Err(e) => de_test(json_tree(*v)) == Err::<Option<Seq<char>>, Seq<char>>(e@),
        },
{
    if overlong_exec(v, 1) {
        return Err(too_many_elements_msg());
    }
    match get_str(v, "message", 0) {
        Some(a) => Ok(a),
        None => Err(bad_field_msg("message")),
    }
}

// --- experimental.isolation_session ---

/// Credentials: both `upn` and `wamToken` are required strings.
pub open spec fn de_user(j: Json) -> Result<IsolationSessionUserView, Seq<char>> {
    if overlong(j, 2) {
        Err(too_many_elements())
    } else {
        let a = field_str_required(slot_required(j, "upn"@, 0));
        let b = field_str_required(slot_required(j, "wamToken"@, 1));
        if a is None { Err(bad_field("upn"@)) }
        else if b is None { Err(bad_field("wamToken"@)) }
        else { Ok(IsolationSessionUserView { upn: a->0, wam_token: b->0 }) }
    }
}

pub(crate) fn read_user(v: &serde_json::Value) -> (r: Result<IsolationSessionUser, String>)
    requires
        is_record(json_tree(*v)),
    ensures
        res_view(r) == de_user(json_tree(*v)),
{
    if overlong_exec(v, 2) {
        return Err(too_many_elements_msg());
    }
    match (get_str_required(v, "upn", 0), get_str_required(v, "wamToken", 1)) {
        (Some(a), Some(b)) => Ok(IsolationSessionUser { upn: a, wam_token: b }),
        (None, _) => Err(bad_field_msg("upn")),
        (_, None) => Err(bad_field_msg("wamToken")),
    }
}

/// The `experimental.isolation_session` section as written.
pub struct RawIsolationSessionOf<S, U> {
    pub configuration_id: Option<S>,
    pub user: Option<U>,
}

pub type RawIsolationSession = RawIsolationSessionOf<String, IsolationSessionUser>;
pub type RawIsolationSessionV = RawIsolationSessionOf<Seq<char>, IsolationSessionUserView>;

impl View for RawIsolationSessionOf<String, IsolationSessionUser> {
    type V = RawIsolationSessionV;

    open spec fn view(&self) -> RawIsolationSessionV {
        RawIsolationSessionOf { configuration_id: opt_view(self.configuration_id), user: ov(self.user) }
    }
}

pub open spec fn de_isolation_session(j: Json) -> Result<RawIsolationSessionV, Seq<char>> {
    if overlong(j, 2) {
        Err(too_many_elements())
    } else {
        let a = field_str(slot(j, "configurationId"@, 0));
        let b = section(slot(j, "user"@, 1), "user"@, |x: Json| de_user(x));
        if a is None { Err(bad_field("configurationId"@)) }
        else if b is Err { Err(b->Err_0) }
        else { Ok(RawIsolationSessionOf { configuration_id: a->0, user: b->Ok_0 }) }
    }
}

pub(crate) fn read_isolation_session(v: &serde_json::Value) -> (r: Result<RawIsolationSession, String>)
    requires
        is_record(json_tree(*v)),
    ensures
        res_view(r) == de_isolation_session(json_tree(*v)),
{
    if overlong_exec(v, 2) {
        return Err(too_many_elements_msg());
    }
    let a = get_str(v, "configurationId", 0);
    let b: Result<Option<IsolationSessionUser>, String> = match get_present(v, "user", 1) {
        None => Ok(None),
        Some(c) => if is_record_exec(c) {
            match read_user(c) {
                Ok(u) => Ok(Some(u)),
                Err(e) => Err(e),
            }
        } else {
            Err(bad_field_msg("user"))
        },
    };
    match (a, b) {
        (Some(a), Ok(b)) => Ok(RawIsolationSessionOf { configuration_id: a, user: b }),
        (None, _) => Err(bad_field_msg("configurationId")),
        (_, Err(e)) => Err(e),
    }
}

// --- experimental.seatbelt ---

/// The `experimental.seatbelt` section as written.
pub struct RawSeatbeltOf<S, L> {
    pub profile_override: Option<S>,
    pub gui_access: Option<bool>,
    pub launch_method: Option<LaunchMethod>,
    pub nested_pty: Option<bool>,
    pub keychain_access: Option<bool>,
    pub extra_mach_lookups: Option<L>,
}

pub type RawSeatbelt = RawSeatbeltOf<String, Vec<String>>;
pub type RawSeatbeltV = RawSeatbeltOf<Seq<char>, Seq<Seq<char>>>;

impl View for RawSeatbeltOf<String, Vec<String>> {
    type V = RawSeatbeltV;

    open spec fn view(&self) -> RawSeatbeltV {
        RawSeatbeltOf {
            profile_override: opt_view(self.profile_override),
            gui_access: self.gui_access,
            launch_method: self.launch_method,
            nested_pty: self.nested_pty,
            keychain_access: self.keychain_access,
            extra_mach_lookups: opt_strings_view(self.extra_mach_lookups),
        }
    }
}

pub open spec fn de_seatbelt(j: Json) -> Result<RawSeatbeltV, Seq<char>> {
    if overlong(j, 6) {
        Err(too_many_elements())
    } else {
        let a = field_str(slot(j, "profileOverride"@, 0));
        let b = field_bool(slot(j, "guiAccess"@, 1));
        let c = field_launch(slot(j, "launchMethod"@, 2));
        let d = field_bool(slot(j, "nestedPty"@, 3));
        let e = field_bool(slot(j, "keychainAccess"@, 4));
        let f = field_strs(slot(j, "extraMachLookups"@, 5));
        if a is None { Err(bad_field("profileOverride"@)) }
        else if b is None { Err(bad_field("guiAccess"@)) }
        else if c is None { Err(bad_field("launchMethod"@)) }
        else if d is None { Err(bad_field("nestedPty"@)) }
        else if e is None { Err(bad_field("keychainAccess"@)) }
        else if f is None { Err(bad_field("extraMachLookups"@)) }
        else {
            Ok(RawSeatbeltOf {
                profile_override: a->0,
                gui_access: b->0,
                launch_method: c->0,
                nested_pty: d->0,
                keychain_access: e->0,
                extra_mach_lookups: f->0,
            })
        }
    }
}

pub(crate) fn read_seatbelt(v: &serde_json::Value) -> (r: Result<RawSeatbelt, String>)
    requires
        is_record(json_tree(*v)),
    ensures
        res_view(r) == de_seatbelt(json_tree(*v)),
{
    if overlong_exec(v, 6) {
        return Err(too_many_elements_msg());
    }
    let a = get_str(v, "profileOverride", 0);
    let b = get_bool(v, "guiAccess", 1);
    let c = get_launch(v, "launchMethod", 2);
    let d = get_bool(v, "nestedPty", 3);
    let e = get_bool(v, "keychainAccess", 4);
    let f = get_strs(v, "extraMachLookups", 5);
    match (a, b, c, d, e, f) {
        (Some(a), Some(b), Some(c), Some(d), Some(e), Some(f)) => Ok(RawSeatbeltOf {
            profile_override: a,
            gui_access: b,
            launch_method: c,
            nested_pty: d,
            keychain_access: e,
            extra_mach_lookups: f,
        }),
        (None, _, _, _, _, _) => Err(bad_field_msg("profileOverride")),
        (_, None, _, _, _, _) => Err(bad_field_msg("guiAccess")),
        (_, _, None, _, _, _) => Err(bad_field_msg("launchMethod")),
        (_, _, _, None, _, _) => Err(bad_field_msg("nestedPty")),
        (_, _, _, _, None, _) => Err(bad_field_msg("keychainAccess")),
        (_, _, _, _, _, None) => Err(bad_field_msg("extraMachLookups")),
    }
}

// --- experimental.telemetry ---

pub open spec fn de_telemetry(j: Json) -> Result<Option<bool>, Seq<char>> {
    if overlong(j, 1) {
        Err(too_many_elements())
    } else {
        let a = field_bool(slot(j, "enabled"@, 0));
        if a is None { Err(bad_field("enabled"@)) } else { Ok(a->0) }
    }
}


pub(crate) fn read_opt_process(m: Option<&serde_json::Value>) -> (r: Result<Option<RawProcess>, String>)
    ensures
        res_opt_view(r) == section(opt_tree(m), "process"@, |x: Json| de_process(x)),
{
    match m {
        None => Ok(None),
        Some(c) => if is_record_exec(c) {
            match read_process(c) {
                Ok(x) => Ok(Some(x)),
                Err(e) => Err(e),
            }
        } else {
            Err(bad_field_msg("process"))
        },
    }
}

pub(crate) fn read_opt_process_container(m: Option<&serde_json::Value>) -> (r: Result<Option<RawProcessContainer>, String>)
    ensures
        res_opt_view(r) == section(opt_tree(m), "processContainer"@, |x: Json| de_process_container(x)),
{
    match m {
        None => Ok(None),
        Some(c) => if is_record_exec(c) {
            match read_process_container(c) {
                Ok(x) => Ok(Some(x)),
                Err(e) => Err(e),
            }
        } else {
            Err(bad_field_msg("processContainer"))
        },
    }
}

pub(crate) fn read_opt_filesystem(m: Option<&serde_json::Value>) -> (r: Result<Option<RawFilesystem>, String>)
    ensures
        res_opt_view(r) == section(opt_tree(m), "filesystem"@, |x: Json| de_filesystem(x)),
{
    match m {
        None => Ok(None),
        Some(c) => if is_record_exec(c) {
            match read_filesystem(c) {
                Ok(x) => Ok(Some(x)),
                Err(e) => Err(e),
            }
        } else {
            Err(bad_field_msg("filesystem"))
        },
    }
}

pub(crate) fn read_opt_network(m: Option<&serde_json::Value>) -> (r: Result<Option<RawNetwork>, String>)
    ensures
        res_opt_view(r) == section(opt_tree(m), "network"@, |x: Json| de_network(x)),
{
    match m {
        None => Ok(None),
        Some(c) => if is_record_exec(c) {
            match read_network(c) {
                Ok(x) => Ok(Some(x)),
                Err(e) => Err(e),
            }
        } else {
            Err(bad_field_msg("network"))
        },
    }
}

pub(crate) fn read_opt_lxc(m: Option<&serde_json::Value>) -> (r: Result<Option<RawLxc>, String>)
    ensures
        res_opt_view(r) == section(opt_tree(m), "lxc"@, |x: Json| de_lxc(x)),
{
    match m {
        None => Ok(None),
        Some(c) => if is_record_exec(c) {
            match read_lxc(c) {
                Ok(x) => Ok(Some(x)),
                Err(e) => Err(e),
            }
        } else {
            Err(bad_field_msg("lxc"))
        },
    }
}

pub(crate) fn read_opt_ui(m: Option<&serde_json::Value>) -> (r: Result<Option<RawUi>, String>)
    ensures
        res_opt_view(r) == section(opt_tree(m), "ui"@, |x: Json| de_ui(x)),
{
    match m {
        None => Ok(None),
        Some(c) => if is_record_exec(c) {
            match read_ui(c) {
                Ok(x) => Ok(Some(x)),
                Err(e) => Err(e),
            }
        } else {
            Err(bad_field_msg("ui"))
        },
    }
}

pub(crate) fn read_opt_sandbox(m: Option<&serde_json::Value>) -> (r: Result<Option<RawSandbox>, String>)
    ensures
        res_opt_view(r) == section(opt_tree(m), "windows_sandbox"@, |x: Json| de_sandbox(x)),
{
    match m {
        None => Ok(None),
        Some(c) => if is_record_exec(c) {
            match read_sandbox(c) {
                Ok(x) => Ok(Some(x)),
                Err(e) => Err(e),
            }
        } else {
            Err(bad_field_msg("windows_sandbox"))
        },
    }
}

pub(crate) fn read_opt_container(m: Option<&serde_json::Value>) -> (r: Result<Option<RawContainerConfig>, String>)
    ensures
        res_opt_view(r) == section(opt_tree(m), "wslc"@, |x: Json| de_container(x)),
{
    match m {
        None => Ok(None),
        Some(c) => if is_record_exec(c) {
            match read_container(c) {
                Ok(x) => Ok(Some(x)),
                Err(e) => Err(e),
            }
        } else {
            Err(bad_field_msg("wslc"))
        },
    }
}

pub(crate) fn read_opt_isolation_session(m: Option<&serde_json::Value>) -> (r: Result<Option<RawIsolationSession>, String>)
    ensures
        res_opt_view(r) == section(opt_tree(m), "isolation_session"@, |x: Json| de_isolation_session(x)),
{
    match m {
        None => Ok(None),
        Some(c) => if is_record_exec(c) {
            match read_isolation_session(c) {
                Ok(x) => Ok(Some(x)),
                Err(e) => Err(e),
            }
        } else {
            Err(bad_field_msg("isolation_session"))
        },
    }
}

pub(crate) fn read_opt_seatbelt(m: Option<&serde_json::Value>) -> (r: Result<Option<RawSeatbelt>, String>)
    ensures
        res_opt_view(r) == section(opt_tree(m), "seatbelt"@, |x: Json| de_seatbelt(x)),
{
    match m {
        None => Ok(None),
        Some(c) => if is_record_exec(c) {
            match read_seatbelt(c) {
                Ok(x) => Ok(Some(x)),
                Err(e) => Err(e),
            }
        } else {
            Err(bad_field_msg("seatbelt"))
        },
    }
}

pub(crate) fn read_opt_experimental(m: Option<&serde_json::Value>) -> (r: Result<Option<RawExperimental>, String>)
    ensures
        res_opt_view(r) == section(opt_tree(m), "experimental"@, |x: Json| de_experimental(x)),
{
    match m {
        None => Ok(None),
        Some(c) => if is_record_exec(c) {
            match read_experimental(c) {
                Ok(x) => Ok(Some(x)),
                Err(e) => Err(e),
            }
        } else {
            Err(bad_field_msg("experimental"))
        },
    }
}

pub(crate) fn read_opt_fallback(m: Option<&serde_json::Value>) -> (r: Result<Option<RawFallback>, String>)
    ensures
        match r {
            Ok(Some(x)) => section(opt_tree(m), "fallback"@, |x: Json| de_fallback(x)) == Ok::<Option<RawFallback>, Seq<char>>(Some(x)),
            Ok(None) => section(opt_tree(m), "fallback"@, |x: Json| de_fallback(x)) == Ok::<Option<RawFallback>, Seq<char>>(None),
            Err(e) => section(opt_tree(m), "fallback"@, |x: Json| de_fallback(x)) == Err::<Option<RawFallback>, Seq<char>>(e@),
        },
{
    match m {
        None => Ok(None),
        Some(c) => if is_record_exec(c) {
            match read_fallback(c) {
                Ok(x) => Ok(Some(x)),
                Err(e) => Err(e),
            }
        } else {
            Err(bad_field_msg("fallback"))
        },
    }
}

pub(crate) fn read_opt_lifecycle(m: Option<&serde_json::Value>) -> (r: Result<Option<RawLifecycle>, String>)
    ensures
        match r {
            Ok(Some(x)) => section(opt_tree(m), "lifecycle"@, |x: Json| de_lifecycle(x)) == Ok::<Option<RawLifecycle>, Seq<char>>(Some(x)),
            Ok(None) => section(opt_tree(m), "lifecycle"@, |x: Json| de_lifecycle(x)) == Ok::<Option<RawLifecycle>, Seq<char>>(None),
            Err(e) => section(opt_tree(m), "lifecycle"@, |x: Json| de_lifecycle(x)) == Err::<Option<RawLifecycle>, Seq<char>>(e@),
        },
{
    match m {
        None => Ok(None),
        Some(c) => if is_record_exec(c) {
            match read_lifecycle(c) {
                Ok(x) => Ok(Some(x)),
                Err(e) => Err(e),
            }
        } else {
            Err(bad_field_msg("lifecycle"))
        },
    }
}

pub(crate) fn read_opt_test(m: Option<&serde_json::Value>) -> (r: Result<Option<Option<String>>, String>)
    ensures
        match r {
            Ok(Some(x)) => section(opt_tree(m), "test"@, |x: Json| de_test(x)) == Ok::<Option<Option<Seq<char>>>, Seq<char>>(Some(opt_view(x))),
            Ok(None) => section(opt_tree(m), "test"@, |x: Json| de_test(x)) == Ok::<Option<Option<Seq<char>>>, Seq<char>>(None),
            Err(e) => section(opt_tree(m), "test"@, |x: Json| de_test(x)) == Err::<Option<Option<Seq<char>>>, Seq<char>>(e@),
        },
{
    match m {
        None => Ok(None),
        Some(c) => if is_record_exec(c) {
            match read_test(c) {
                Ok(x) => Ok(Some(x)),
                Err(e) => Err(e),
            }
        } else {
            Err(bad_field_msg("test"))
        },
    }
}

pub(crate) fn read_opt_telemetry(m: Option<&serde_json::Value>) -> (r: Result<Option<Option<bool>>, String>)
    ensures
        match r {
            Ok(Some(x)) => section(opt_tree(m), "telemetry"@, |x: Json| de_telemetry(x)) == Ok::<Option<Option<bool>>, Seq<char>>(Some(x)),
            Ok(None) => section(opt_tree(m), "telemetry"@, |x: Json| de_telemetry(x)) == Ok::<Option<Option<bool>>, Seq<char>>(None),
            Err(e) => section(opt_tree(m), "telemetry"@, |x: Json| de_telemetry(x)) == Err::<Option<Option<bool>>, Seq<char>>(e@),
        },
{
    match m {
        None => Ok(None),
        Some(c) => if is_record_exec(c) {
            match read_telemetry(c) {
                Ok(x) => Ok(Some(x)),
                Err(e) => Err(e),
            }
        } else {
            Err(bad_field_msg("telemetry"))
        },
    }
}

pub(crate) fn read_telemetry(v: &serde_json::Value) -> (r: Result<Option<bool>, String>)
    requires
        is_record(json_tree(*v)),
    ensures
        match r {
            Ok(x) => de_telemetry(json_tree(*v)) == Ok::<Option<bool>, Seq<char>>(x),
            Err(e) => de_telemetry(json_tree(*v)) == Err::<Option<bool>, Seq<char>>(e@),
        },
{
    if overlong_exec(v, 1) {
        return Err(too_many_elements_msg());
    }
    match get_bool(v, "enabled", 0) {
        Some(a) => Ok(a),
        None => Err(bad_field_msg("enabled")),
    }
}

/// The error text of a field given twice (under its name and its alias).
pub open spec fn dup_field(key: Seq<char>) -> Seq<char> {
    "duplicate field `"@ + key + "`"@
}

pub(crate) fn dup_field_msg(key: &str) -> (r: String)
    ensures
        r@ == dup_field(key@),
{
    let mut s = to_owned_string("duplicate field `");
    crate::text::push_str(&mut s, key);
    crate::text::push_str(&mut s, "`");
    s
}

// --- experimental ---

/// The `experimental` section as written: `test` and `telemetry` hold the optional field of their object.
pub struct RawExperimentalOf<S, L, U, M> {
    pub test: Option<Option<S>>,
    pub windows_sandbox: Option<RawSandboxOf<S>>,
    pub wslc: Option<RawContainerConfigOf<S, M>>,
    pub isolation_session: Option<RawIsolationSessionOf<S, U>>,
    pub seatbelt: Option<RawSeatbeltOf<S, L>>,
    pub telemetry: Option<Option<bool>>,
}

pub type RawExperimental = RawExperimentalOf<String, Vec<String>, IsolationSessionUser, Vec<RawPortMapping>>;
pub type RawExperimentalV = RawExperimentalOf<Seq<char>, Seq<Seq<char>>, IsolationSessionUserView, Seq<RawPortMappingV>>;

impl View for RawExperimentalOf<String, Vec<String>, IsolationSessionUser, Vec<RawPortMapping>> {
    type V = RawExperimentalV;

    open spec fn view(&self) -> RawExperimentalV {
        RawExperimentalOf {
            test: match self.test { Some(t) => Some(opt_view(t)), None => None },
            windows_sandbox: ov(self.windows_sandbox),
            wslc: ov(self.wslc),
            isolation_session: ov(self.isolation_session),
            seatbelt: ov(self.seatbelt),
            telemetry: self.telemetry,
        }
    }
}

pub open spec fn de_seatbelt_aliased(j: Json) -> Result<Option<RawSeatbeltV>, Seq<char>> {
    match present_alias(j, "seatbelt"@, "macos_sandbox"@, 4) {
        None => Err(dup_field("seatbelt"@)),
        Some(m) => section(m, "seatbelt"@, |x: Json| de_seatbelt(x)),
    }
}

pub open spec fn de_experimental(j: Json) -> Result<RawExperimentalV, Seq<char>> {
    if overlong(j, 6) {
        Err(too_many_elements())
    } else {
        let a = section(slot(j, "test"@, 0), "test"@, |x: Json| de_test(x));
        let b = section(slot(j, "windows_sandbox"@, 1), "windows_sandbox"@, |x: Json| de_sandbox(x));
        let c = section(slot(j, "wslc"@, 2), "wslc"@, |x: Json| de_container(x));
        let d = section(slot(j, "isolation_session"@, 3), "isolation_session"@, |x: Json| de_isolation_session(x));
        let e = de_seatbelt_aliased(j);
        let f = section(slot(j, "telemetry"@, 5), "telemetry"@, |x: Json| de_telemetry(x));
        if a is Err { Err(a->Err_0) }
        else if b is Err { Err(b->Err_0) }
        else if c is Err { Err(c->Err_0) }
        else if d is Err { Err(d->Err_0) }
        else if e is Err { Err(e->Err_0) }
        else if f is Err { Err(f->Err_0) }
        else {
            Ok(RawExperimentalOf {
                test: a->Ok_0,
                windows_sandbox: b->Ok_0,
                wslc: c->Ok_0,
                isolation_session: d->Ok_0,
                seatbelt: e->Ok_0,
                telemetry: f->Ok_0,
            })
        }
    }
}

pub(crate) fn read_seatbelt_aliased(v: &serde_json::Value) -> (r: Result<Option<RawSeatbelt>, String>)
    requires
        is_record(json_tree(*v)),
    ensures
        res_opt_view(r) == de_seatbelt_aliased(json_tree(*v)),
{
    match get_present_alias(v, "seatbelt", "macos_sandbox", 4) {
        None => Err(dup_field_msg("seatbelt")),
        Some(m) => read_opt_seatbelt(m),
    }
}

pub(crate) fn read_experimental(v: &serde_json::Value) -> (r: Result<RawExperimental, String>)
    requires
        is_record(json_tree(*v)),
    ensures
        res_view(r) == de_experimental(json_tree(*v)),
{
    if overlong_exec(v, 6) {
        return Err(too_many_elements_msg());
    }
    let a = read_opt_test(get_present(v, "test", 0));
    let b = read_opt_sandbox(get_present(v, "windows_sandbox", 1));
    let c = read_opt_container(get_present(v, "wslc", 2));
    let d = read_opt_isolation_session(get_present(v, "isolation_session", 3));
    let e = read_seatbelt_aliased(v);
    let f = read_opt_telemetry(get_present(v, "telemetry", 5));
    match (a, b, c, d, e, f) {
        (Ok(a), Ok(b), Ok(c), Ok(d), Ok(e), Ok(f)) => Ok(RawExperimentalOf {
            test: a,
            windows_sandbox: b,
            wslc: c,
            isolation_session: d,
            seatbelt: e,
            telemetry: f,
        }),
        (Err(x), _, _, _, _, _) => Err(x),
        (_, Err(x), _, _, _, _) => Err(x),
        (_, _, Err(x), _, _, _) => Err(x),
        (_, _, _, Err(x), _, _) => Err(x),
        (_, _, _, _, Err(x), _) => Err(x),
        (_, _, _, _, _, Err(x)) => Err(x),
    }
}

// --- the whole one-shot configuration ---

/// A one-shot configuration as written.
pub struct RawConfigOf<S, L, J, U, M> {
    pub version: Option<S>,
    pub container_id: Option<S>,
    pub platform: Option<S>,
    pub process: Option<RawProcessOf<S, L>>,
    pub lifecycle: Option<RawLifecycle>,
    pub containment: Option<S>,
    pub process_container: Option<RawProcessContainerOf<S, L>>,
    pub lxc: Option<RawLxcOf<S>>,
    pub filesystem: Option<RawFilesystemOf<L>>,
    pub fallback: Option<RawFallback>,
    pub network: Option<RawNetworkOf<S, L, J>>,
    pub ui: Option<RawUiOf<S>>,
    pub experimental: Option<RawExperimentalOf<S, L, U, M>>,
}

pub type RawConfig = RawConfigOf<String, Vec<String>, serde_json::Value, IsolationSessionUser, Vec<RawPortMapping>>;
pub type RawConfigV = RawConfigOf<Seq<char>, Seq<Seq<char>>, Json, IsolationSessionUserView, Seq<RawPortMappingV>>;

impl View for RawConfigOf<String, Vec<String>, serde_json::Value, IsolationSessionUser, Vec<RawPortMapping>> {
    type V = RawConfigV;

    open spec fn view(&self) -> RawConfigV {
        RawConfigOf {
            version: opt_view(self.version),
            container_id: opt_view(self.container_id),
            platform: opt_view(self.platform),
            process: ov(self.process),
            lifecycle: self.lifecycle,
            containment: opt_view(self.containment),
            process_container: ov(self.process_container),
            lxc: ov(self.lxc),
            filesystem: ov(self.filesystem),
            fallback: self.fallback,
            network: ov(self.network),
            ui: ov(self.ui),
            experimental: ov(self.experimental),
        }
    }
}

/// The error text of a top-level document that is neither an object nor
/// an array.
pub open spec fn not_an_object() -> Seq<char> {
    "invalid type: expected a JSON object or array"@
}

pub open spec fn de_process_container_aliased(j: Json) -> Result<Option<RawProcessContainerV>, Seq<char>> {
    match present_alias(j, "processContainer"@, "appContainer"@, 6) {
        None => Err(dup_field("processContainer"@)),
        Some(m) => section(m, "processContainer"@, |x: Json| de_process_container(x)),
    }
}

/// A one-shot configuration document read field by field.
pub open spec fn de_config(j: Json) -> Result<RawConfigV, Seq<char>> {
    if overlong(j, 13) {
        Err(too_many_elements())
    } else {
        if !is_record(j) {
            Err(not_an_object())
        } else {
            let a = field_str(slot(j, "version"@, 0));
            let b = field_str(slot(j, "containerId"@, 1));
            let c = field_str(slot(j, "platform"@, 2));
            let d = section(slot(j, "process"@, 3), "process"@, |x: Json| de_process(x));
            let e = section(slot(j, "lifecycle"@, 4), "lifecycle"@, |x: Json| de_lifecycle(x));
            let f = field_str(slot(j, "containment"@, 5));
            let g = de_process_container_aliased(j);
            let h = section(slot(j, "lxc"@, 7), "lxc"@, |x: Json| de_lxc(x));
            let i = section(slot(j, "filesystem"@, 8), "filesystem"@, |x: Json| de_filesystem(x));
            let k = section(slot(j, "fallback"@, 9), "fallback"@, |x: Json| de_fallback(x));
            let l = section(slot(j, "network"@, 10), "network"@, |x: Json| de_network(x));
            let m = section(slot(j, "ui"@, 11), "ui"@, |x: Json| de_ui(x));
            let n = section(slot(j, "experimental"@, 12), "experimental"@, |x: Json| de_experimental(x));
            if a is None { Err(bad_field("version"@)) }
            else if b is None { Err(bad_field("containerId"@)) }
            else if c is None { Err(bad_field("platform"@)) }
            else if d is Err { Err(d->Err_0) }
            else if e is Err { Err(e->Err_0) }
            else if f is None { Err(bad_field("containment"@)) }
            else if g is Err { Err(g->Err_0) }
            else if h is Err { Err(h->Err_0) }
            else if i is Err { Err(i->Err_0) }
            else if k is Err { Err(k->Err_0) }
            else if l is Err { Err(l->Err_0) }
            else if m is Err { Err(m->Err_0) }
            else if n is Err { Err(n->Err_0) }
            else {
                Ok(RawConfigOf {
                    version: a->0,
                    container_id: b->0,
                    platform: c->0,
                    process: d->Ok_0,
                    lifecycle: e->Ok_0,
                    containment: f->0,
                    process_container: g->Ok_0,
                    lxc: h->Ok_0,
                    filesystem: i->Ok_0,
                    fallback: k->Ok_0,
                    network: l->Ok_0,
                    ui: m->Ok_0,
                    experimental: n->Ok_0,
                })
            }
        }
    }
}

pub(crate) fn not_an_object_msg() -> (r: String)
    ensures
        r@ == not_an_object(),
{
    to_owned_string("invalid type: expected a JSON object or array")
}

pub(crate) fn read_config(v: &serde_json::Value) -> (r: Result<RawConfig, String>)
    ensures
        res_view(r) == de_config(json_tree(*v)),
{
    if overlong_exec(v, 13) {
        return Err(too_many_elements_msg());
    }
    if !is_record_exec(v) {
        return Err(not_an_object_msg());
    }
    let a = get_str(v, "version", 0);
    let b = get_str(v, "containerId", 1);
    let c = get_str(v, "platform", 2);
    let d = read_opt_process(get_present(v, "process", 3));
    let e = read_opt_lifecycle(get_present(v, "lifecycle", 4));
    let f = get_str(v, "containment", 5);
    let g = match get_present_alias(v, "processContainer", "appContainer", 6) {
        None => Err(dup_field_msg("processContainer")),
        Some(m) => read_opt_process_container(m),
    };
    let h = read_opt_lxc(get_present(v, "lxc", 7));
    let i = read_opt_filesystem(get_present(v, "filesystem", 8));
    let k = read_opt_fallback(get_present(v, "fallback", 9));
    let l = read_opt_network(get_present(v, "network", 10));
    let m = read_opt_ui(get_present(v, "ui", 11));
    let n = read_opt_experimental(get_present(v, "experimental", 12));
    if a.is_none() { return Err(bad_field_msg("version")); }
    if b.is_none() { return Err(bad_field_msg("containerId")); }
    if c.is_none() { return Err(bad_field_msg("platform")); }
    let d = match d { Ok(x) => x, Err(x) => return Err(x) };
    let e = match e { Ok(x) => x, Err(x) => return Err(x) };
    if f.is_none() { return Err(bad_field_msg("containment")); }
    let g = match g { Ok(x) => x, Err(x) => return Err(x) };
    let h = match h { Ok(x) => x, Err(x) => return Err(x) };
    let i = match i { Ok(x) => x, Err(x) => return Err(x) };
    let k = match k { Ok(x) => x, Err(x) => return Err(x) };
    let l = match l { Ok(x) => x, Err(x) => return Err(x) };
    let m = match m { Ok(x) => x, Err(x) => return Err(x) };
    let n = match n { Ok(x) => x, Err(x) => return Err(x) };
    Ok(RawConfigOf {
        version: a.unwrap(),
        container_id: b.unwrap(),
        platform: c.unwrap(),
        process: d,
        lifecycle: e,
        containment: f.unwrap(),
        process_container: g,
        lxc: h,
        filesystem: i,
        fallback: k,
        network: l,
        ui: m,
        experimental: n,
    })
}

// --- the state-aware request envelope ---

/// A state-aware envelope as written; `experimental` is kept as a JSON value.
pub struct RawStateAwareRequestOf<S, L, J> {
    pub version: Option<S>,
    pub containment: Option<S>,
    pub phase: S,
    pub sandbox_id: Option<S>,
    pub process: Option<RawProcessOf<S, L>>,
    pub filesystem: Option<RawFilesystemOf<L>>,
    pub fallback: Option<RawFallback>,
    pub network: Option<RawNetworkOf<S, L, J>>,
    pub ui: Option<RawUiOf<S>>,
    pub experimental: Option<J>,
}

pub type RawStateAwareRequest = RawStateAwareRequestOf<String, Vec<String>, serde_json::Value>;
pub type RawStateAwareRequestV = RawStateAwareRequestOf<Seq<char>, Seq<Seq<char>>, Json>;

impl View for RawStateAwareRequestOf<String, Vec<String>, serde_json::Value> {
    type V = RawStateAwareRequestV;

    open spec fn view(&self) -> RawStateAwareRequestV {
        RawStateAwareRequestOf {
            version: opt_view(self.version),
            containment: opt_view(self.containment),
            phase: self.phase@,
            sandbox_id: opt_view(self.sandbox_id),
            process: ov(self.process),
            filesystem: ov(self.filesystem),
            fallback: self.fallback,
            network: ov(self.network),
            ui: ov(self.ui),
            experimental: opt_json(self.experimental),
        }
    }
}

/// A state-aware request envelope: `phase` is a required string.
pub open spec fn de_state_aware(j: Json) -> Result<RawStateAwareRequestV, Seq<char>> {
    if overlong(j, 10) {
        Err(too_many_elements())
    } else {
        if !is_record(j) {
            Err(not_an_object())
        } else {
            let a = field_str(slot(j, "version"@, 0));
            let b = field_str(slot(j, "containment"@, 1));
            let c = field_str_required(slot_required(j, "phase"@, 2));
            let d = field_str(slot(j, "sandboxId"@, 3));
            let e = section(slot(j, "process"@, 4), "process"@, |x: Json| de_process(x));
            let f = section(slot(j, "filesystem"@, 5), "filesystem"@, |x: Json| de_filesystem(x));
            let g = section(slot(j, "fallback"@, 6), "fallback"@, |x: Json| de_fallback(x));
            let h = section(slot(j, "network"@, 7), "network"@, |x: Json| de_network(x));
            let i = section(slot(j, "ui"@, 8), "ui"@, |x: Json| de_ui(x));
            if a is None { Err(bad_field("version"@)) }
            else if b is None { Err(bad_field("containment"@)) }
            else if c is None { Err(bad_field("phase"@)) }
            else if d is None { Err(bad_field("sandboxId"@)) }
            else if e is Err { Err(e->Err_0) }
            else if f is Err { Err(f->Err_0) }
            else if g is Err { Err(g->Err_0) }
            else if h is Err { Err(h->Err_0) }
            else if i is Err { Err(i->Err_0) }
            else {
                Ok(RawStateAwareRequestOf {
                    version: a->0,
                    containment: b->0,
                    phase: c->0,
                    sandbox_id: d->0,
                    process: e->Ok_0,
                    filesystem: f->Ok_0,
                    fallback: g->Ok_0,
                    network: h->Ok_0,
                    ui: i->Ok_0,
                    experimental: slot(j, "experimental"@, 9),
                })
            }
        }
    }
}

pub(crate) fn read_state_aware(v: &serde_json::Value) -> (r: Result<RawStateAwareRequest, String>)
    ensures
        res_view(r) == de_state_aware(json_tree(*v)),
{
    if overlong_exec(v, 10) {
        return Err(too_many_elements_msg());
    }
    if !is_record_exec(v) {
        return Err(not_an_object_msg());
    }
    let a = get_str(v, "version", 0);
    let b = get_str(v, "containment", 1);
    let c = get_str_required(v, "phase", 2);
    let d = get_str(v, "sandboxId", 3);
    let e = read_opt_process(get_present(v, "process", 4));
    let f = read_opt_filesystem(get_present(v, "filesystem", 5));
    let g = read_opt_fallback(get_present(v, "fallback", 6));
    let h = read_opt_network(get_present(v, "network", 7));
    let i = read_opt_ui(get_present(v, "ui", 8));
    let x = match get_present(v, "experimental", 9) {
        Some(c) => Some(json_clone(c)),
        None => None,
    };
    if a.is_none() { return Err(bad_field_msg("version")); }
    if b.is_none() { return Err(bad_field_msg("containment")); }
    if c.is_none() { return Err(bad_field_msg("phase")); }
    if d.is_none() { return Err(bad_field_msg("sandboxId")); }
    let e = match e { Ok(y) => y, Err(y) => return Err(y) };
    let f = match f { Ok(y) => y, Err(y) => return Err(y) };
    let g = match g { Ok(y) => y, Err(y) => return Err(y) };
    let h = match h { Ok(y) => y, Err(y) => return Err(y) };
    let i = match i { Ok(y) => y, Err(y) => return Err(y) };
    Ok(RawStateAwareRequestOf {
        version: a.unwrap(),
        containment: b.unwrap(),
        phase: c.unwrap(),
        sandbox_id: d.unwrap(),
        process: e,
        filesystem: f,
        fallback: g,
        network: h,
        ui: i,
        experimental: x,
    })
}

} // verus!
