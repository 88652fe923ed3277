//! The rules that a system-call implementation's declaration must follow.
//!
//! The `#[syscall]` attribute reads a function declaration and refuses the
//! ones that cannot be called across the user-space boundary. The facts the
//! rules read are held here as plain values; the messages and their order are
//! those the attribute reports.
use vstd::prelude::*;

verus! {

/// The `extern` marking of a function declaration.
pub enum Abi {
    /// No `extern` at all: the Rust ABI.
    NoExtern,
    /// A bare `extern`, naming no ABI.
    Unnamed,
    /// `extern "name"`.
    Named(String),
}

/// What the signature checks read of a function declaration.
pub struct SignatureShape {
    /// It ends in `...`.
    pub is_variadic: bool,
    /// It is marked `unsafe`.
    pub is_unsafe: bool,
    /// Its `extern` marking.
    pub abi: Abi,
    /// One of its inputs is `self`.
    pub has_receiver: bool,
    /// It is marked `async`.
    pub is_async: bool,
}

/// The messages of a declaration that breaks the system-call rules.
#[derive(Debug)]
pub struct IncorrectSignatureError(pub Vec<String>);

/// The text of each string of `v`.
pub open spec fn texts(v: Seq<String>) -> Seq<Seq<char>> {
    v.map_values(|s: String| s@)
}

impl View for IncorrectSignatureError {
    type V = Seq<Seq<char>>;

    open spec fn view(&self) -> Seq<Seq<char>> {
        texts(self.0@)
    }
}

/// What Rust's `Debug` formatting prints for a string: the string quoted,
/// with its special characters escaped.
pub uninterp spec fn str_debug_repr(s: Seq<char>) -> Seq<char>;

/// `format!("{:?}", s)` for a string.
///
/// The contract names the result and claims that it depends on the text of
/// `s` alone; what the escaping is, is not stated.
#[verifier::external_body]
fn debug_repr(s: &str) -> (r: String)
    ensures
        r@ == str_debug_repr(s@),
{
    format!("{:?}", s)
}

/// The display text of a list of messages: each on a line of its own,
/// after `Error: `.
pub open spec fn error_lines(msgs: Seq<Seq<char>>) -> Seq<char>
    decreases msgs.len(),
{
    if msgs.len() == 0 {
        Seq::empty()
    } else {
        error_lines(msgs.drop_last()) + "Error: "@ + msgs.last() + "\n"@
    }
}

impl IncorrectSignatureError {
    /// The text this error displays as: each message on a line of its own,
    /// after `Error: `.
    pub fn message(&self) -> (r: String)
        ensures
            r@ == error_lines(self@),
    {
        let mut out = String::new();
        let mut i: usize = 0;
        while i < self.0.len()
            invariant
                i <= self.0@.len(),
                out@ == error_lines(texts(self.0@.subrange(0, i as int))),
            decreases self.0@.len() - i,
        {
            out.append("Error: ");
            out.append(self.0[i].as_str());
            out.append("\n");
            assert(texts(self.0@.subrange(0, i + 1)).drop_last() =~= texts(
                self.0@.subrange(0, i as int),
            ));
            i = i + 1;
        }
        assert(self.0@.subrange(0, self.0@.len() as int) =~= self.0@);
        out
    }
}

/// The message for a variadic declaration.
pub open spec fn msg_variadic() -> Seq<char> {
    "Syscall cannot be a variadic function"@
}

/// The message for a declaration that is not `unsafe`.
pub open spec fn msg_not_unsafe() -> Seq<char> {
    "Syscall implementations have a safety requirements, and can be not sound if done wrong. Mark function, as `unsafe` to mark as such"@
}

/// The message for a declaration with `extern "name"` other than `"C"`,
/// given the name as `Debug` prints it.
pub open spec fn msg_wrong_abi(shown: Seq<char>) -> Seq<char> {
    "Syscall function must be marked with `extern \"C\". Found `extern "@ + shown + "`"@
}

/// The message for a bare `extern`.
pub open spec fn msg_unnamed_abi() -> Seq<char> {
    "Syscall function must be marked with `extern \"C\"`. Found just `extern`"@
}

/// The message for a declaration without `extern`.
pub open spec fn msg_no_extern() -> Seq<char> {
    "Syscall functions must be marked `extern \"C\"`. Found no extern, cannot use Rust's ABI"@
}

/// The message for a method.
pub open spec fn msg_receiver() -> Seq<char> {
    "Syscall function cannot be a receiver"@
}

/// The message for an `async` declaration.
pub open spec fn msg_async() -> Seq<char> {
    "async functions are not ffi safe and require generic "@
}

/// The message added when the signature is refused.
pub open spec fn msg_no_visibility() -> Seq<char> {
    "no visibility for a syscall"@
}

/// The message for a declaration visible to Rust code.
pub open spec fn msg_visible() -> Seq<char> {
    "Syscalls should not be visible to rust code"@
}

/// `m` alone when `cond` holds, nothing otherwise.
pub open spec fn when(cond: bool, m: Seq<char>) -> Seq<Seq<char>> {
    if cond {
        seq![m]
    } else {
        Seq::empty()
    }
}

/// What the `extern` marking contributes to the signature messages.
pub open spec fn abi_messages(abi: Abi, shown: Seq<char>) -> Seq<Seq<char>> {
    match abi {
        Abi::NoExtern => seq![msg_no_extern()],
        Abi::Unnamed => seq![msg_unnamed_abi()],
        Abi::Named(name) => when(name@ != "C"@, msg_wrong_abi(shown)),
    }
}

/// Every message a signature earns, in the order they are reported, given
/// how `Debug` prints its ABI name.
pub open spec fn signature_messages_shown(sig: SignatureShape, shown: Seq<char>) -> Seq<Seq<char>> {
    when(sig.is_variadic, msg_variadic()) + when(!sig.is_unsafe, msg_not_unsafe()) + abi_messages(
        sig.abi,
        shown,
    ) + when(sig.has_receiver, msg_receiver()) + when(sig.is_async, msg_async())
}

/// How `Debug` prints the ABI name of `abi`; empty when it names none.
pub open spec fn abi_shown(abi: Abi) -> Seq<char> {
    match abi {
        Abi::Named(name) => str_debug_repr(name@),
        _ => Seq::empty(),
    }
}

/// Every message a signature earns, in the order they are reported.
pub open spec fn signature_messages(sig: SignatureShape) -> Seq<Seq<char>> {
    signature_messages_shown(sig, abi_shown(sig.abi))
}

/// A string holding `s`.
fn text(s: &str) -> (r: String)
    ensures
        r@ == s@,
{
    String::from_str(s)
}

/// Checks a signature against the system-call rules, given how `Debug`
/// prints its ABI name: refused, with every message it earns, exactly when
/// it earns one.
pub fn check_signature_shown(sig: &SignatureShape, shown: &str) -> (r: Result<(), IncorrectSignatureError>)
    ensures
        match r {
            Ok(()) => signature_messages_shown(*sig, shown@).len() == 0,
            Err(e) => e@ == signature_messages_shown(*sig, shown@) && e@.len() > 0,
        },
{
    let mut err: Vec<String> = Vec::new();
    if sig.is_variadic {
        err.push(text("Syscall cannot be a variadic function"));
    }
    if !sig.is_unsafe {
        err.push(
            text(
                "Syscall implementations have a safety requirements, and can be not sound if done wrong. Mark function, as `unsafe` to mark as such",
            ),
        );
    }
    let ghost before_abi = texts(err@);
    match &sig.abi {
        Abi::Named(a) => {
            let c = text("C");
            if !(*a == c) {
                let mut msg = text("Syscall function must be marked with `extern \"C\". Found `extern ");
                msg.append(shown);
                msg.append("`");
                err.push(msg);
            }
        },
        Abi::Unnamed => {
            err.push(text("Syscall function must be marked with `extern \"C\"`. Found just `extern`"));
        },
        Abi::NoExtern => {
            err.push(
                text(
                    "Syscall functions must be marked `extern \"C\"`. Found no extern, cannot use Rust's ABI",
                ),
            );
        },
    }
    assert(texts(err@) =~= before_abi + abi_messages(sig.abi, shown@));
    if sig.has_receiver {
        err.push(text("Syscall function cannot be a receiver"));
    }
    if sig.is_async {
        err.push(text("async functions are not ffi safe and require generic "));
    }
    assert(texts(err@) =~= signature_messages_shown(*sig, shown@));
    if err.len() > 0 {
        Err(IncorrectSignatureError(err))
    } else {
        Ok(())
    }
}

/// Checks a signature against the system-call rules: refused, with every
/// message it earns, exactly when it earns one.
pub fn check_signature(sig: &SignatureShape) -> (r: Result<(), IncorrectSignatureError>)
    ensures
        match r {
            Ok(()) => signature_messages(*sig).len() == 0,
            Err(e) => e@ == signature_messages(*sig) && e@.len() > 0,
        },
{
    let shown = match &sig.abi {
        Abi::Named(a) => debug_repr(a.as_str()),
        _ => String::new(),
    };
    check_signature_shown(sig, shown.as_str())
}

/// Every message a whole declaration earns: those of its signature followed
/// by the visibility note when the signature is refused; otherwise the
/// visibility message alone when the declaration is visible to Rust code.
pub open spec fn item_messages(sig: SignatureShape, vis_inherited: bool) -> Seq<Seq<char>> {
    if signature_messages(sig).len() > 0 {
        signature_messages(sig).push(msg_no_visibility())
    } else if !vis_inherited {
        seq![msg_visible()]
    } else {
        Seq::empty()
    }
}

/// Checks a whole declaration: its signature, then its visibility, which must
/// be the inherited (private) one.
pub fn check_item(sig: &SignatureShape, vis_inherited: bool) -> (r: Result<(), IncorrectSignatureError>)
    ensures
        match r {
            Ok(()) => item_messages(*sig, vis_inherited).len() == 0,
            Err(e) => e@ == item_messages(*sig, vis_inherited) && e@.len() > 0,
        },
{
    match check_signature(sig) {
        Err(e) => {
            let mut msgs = e.0;
            msgs.push(text("no visibility for a syscall"));
            assert(texts(msgs@) =~= item_messages(*sig, vis_inherited));
            Err(IncorrectSignatureError(msgs))
        },
        Ok(()) => {
            if !vis_inherited {
                let mut msgs: Vec<String> = Vec::new();
                msgs.push(text("Syscalls should not be visible to rust code"));
                assert(texts(msgs@) =~= item_messages(*sig, vis_inherited));
                Err(IncorrectSignatureError(msgs))
            } else {
                Ok(())
            }
        },
    }
}

/// The message for a function that is not `unsafe`, naming where it stands.
pub open spec fn msg_fn_safe(span: Seq<char>) -> Seq<char> {
    "Function `"@ + span + "` is marked as safe. Needs to be marked as unsafe with the `unsafe` keyword"@
}

/// The message for a function without `extern`, naming where it stands.
pub open spec fn msg_fn_no_extern(span: Seq<char>) -> Seq<char> {
    "Function `"@ + span + "` needs to be marked as `extern \"C\"`"@
}

/// The message for a function with a bare `extern`, naming where it stands.
pub open spec fn msg_fn_unnamed_abi(span: Seq<char>) -> Seq<char> {
    "Function `"@ + span
        + "` needs to be marked as `extern \"C\"`.\nNot specifying a abi is trying to get phased out by the Rust team"@
}

/// The message for a function marked with another ABI, naming where it
/// stands and the ABI.
pub open spec fn msg_fn_wrong_abi(span: Seq<char>, abi: Seq<char>) -> Seq<char> {
    "Function `"@ + span + "` needs to be marked as `extern \"C\"`.\nWas marked with the "@ + abi
}

/// Every message the function check gives, in order: safety first, then the
/// ABI.
pub open spec fn fn_messages(is_unsafe: bool, abi: Abi, span: Seq<char>) -> Seq<Seq<char>> {
    when(!is_unsafe, msg_fn_safe(span)) + match abi {
        Abi::NoExtern => seq![msg_fn_no_extern(span)],
        Abi::Unnamed => seq![msg_fn_unnamed_abi(span)],
        Abi::Named(name) => when(name@ != "C"@, msg_fn_wrong_abi(span, name@)),
    }
}

/// Checks that a function is `unsafe extern "C"`. `span` is the printed
/// location of its signature, which each message names. The messages are
/// combined into one error: refused exactly when there is one.
pub fn check_syscall_sig(is_unsafe: bool, abi: &Abi, span: &str) -> (r: Result<(), Vec<String>>)
    ensures
        match r {
            Ok(()) => fn_messages(is_unsafe, *abi, span@).len() == 0,
            Err(m) => texts(m@) == fn_messages(is_unsafe, *abi, span@) && m@.len() > 0,
        },
{
    let mut err: Vec<String> = Vec::new();
    if !is_unsafe {
        let mut m = text("Function `");
        m.append(span);
        m.append("` is marked as safe. Needs to be marked as unsafe with the `unsafe` keyword");
        err.push(m);
    }
    let ghost first = texts(err@);
    match abi {
        Abi::NoExtern => {
            let mut m = text("Function `");
            m.append(span);
            m.append("` needs to be marked as `extern \"C\"`");
            err.push(m);
        },
        Abi::Named(a) => {
            let c = text("C");
            if !(*a == c) {
                let mut m = text("Function `");
                m.append(span);
                m.append("` needs to be marked as `extern \"C\"`.\nWas marked with the ");
                m.append(a.as_str());
                err.push(m);
            }
        },
        Abi::Unnamed => {
            let mut m = text("Function `");
            m.append(span);
            m.append(
                "` needs to be marked as `extern \"C\"`.\nNot specifying a abi is trying to get phased out by the Rust team",
            );
            err.push(m);
        },
    }
    assert(texts(err@) =~= fn_messages(is_unsafe, *abi, span@));
    if err.len() > 0 {
        Err(err)
    } else {
        Ok(())
    }
}

/// The kind of type a declaration returns.
#[derive(Clone, Copy, PartialEq, Eq, Structural)]
pub enum ReturnShape {
    /// No `->` at all.
    Default,
    /// A function pointer type.
    BareFn,
    /// A slice type.
    Slice,
    /// A reference type.
    Reference,
    /// `_`.
    Infer,
    /// A macro in type position.
    Macro,
    /// Any other type.
    Other,
}

/// Why a return type cannot cross to user space.
#[derive(Debug)]
pub struct BadReturnType(&'static str);

impl View for BadReturnType {
    type V = Seq<char>;

    closed spec fn view(&self) -> Seq<char> {
        self.0@
    }
}

impl BadReturnType {
    /// The reason given.
    pub fn reason(&self) -> (r: &'static str)
        ensures
            r@ == self@,
    {
        self.0
    }

    /// The text this error displays as.
    pub fn message(&self) -> (r: String)
        ensures
            r@ == "Syscall Bad Return Type: "@ + self@,
    {
        let mut m = text("Syscall Bad Return Type: ");
        m.append(self.0);
        m
    }
}

/// Why a return type is refused, if it is.
pub open spec fn return_refusal(ret: ReturnShape) -> Option<Seq<char>> {
    match ret {
        ReturnShape::BareFn | ReturnShape::Slice => Some("Cannot pass a rust pointer to Userspace"@),
        ReturnShape::Reference => Some(
            "Cannot pass a rust pointer to Userspace. If you need to pass a pointer, use a raw pointer"@,
        ),
        ReturnShape::Infer => Some(
            "Cannot infer syscall function. This is to prevent breaking userspace"@,
        ),
        ReturnShape::Macro => Some("No macros as return (How do you even get this?)"@),
        _ => None,
    }
}

/// Checks the return type of a system call: refused with its reason exactly
/// when it would hand a Rust pointer, an inferred type or a macro to user
/// space.
pub fn syscall_impl(ret: ReturnShape) -> (r: Result<(), BadReturnType>)
    ensures
        match return_refusal(ret) {
            Some(why) => r matches Err(e) && e@ == why,
            None => r is Ok,
        },
{
    match ret {
        ReturnShape::BareFn | ReturnShape::Slice => Err(
            BadReturnType("Cannot pass a rust pointer to Userspace"),
        ),
        ReturnShape::Reference => Err(
            BadReturnType(
                "Cannot pass a rust pointer to Userspace. If you need to pass a pointer, use a raw pointer",
            ),
        ),
        ReturnShape::Infer => Err(
            BadReturnType("Cannot infer syscall function. This is to prevent breaking userspace"),
        ),
        ReturnShape::Macro => Err(BadReturnType("No macros as return (How do you even get this?)")),
        _ => Ok(()),
    }
}

/// The length of an array type, as far as type names read it.
pub enum ArrayLen {
    /// `_`.
    Infer,
    /// A string literal, by its value.
    StrLit(String),
    /// An integer literal, as written.
    IntLit(String),
    /// Any other literal.
    OtherLit,
    /// Any other expression.
    OtherExpr,
}

/// The shape of a type, as far as type names read it.
pub enum TypeShape {
    /// `&T` or `&mut T`.
    Reference(Box<TypeShape>),
    /// A path; the identifier when the path is a single one.
    Path(Option<String>),
    /// `[T; len]`.
    Array(Box<TypeShape>, ArrayLen),
    /// Any other type.
    Other,
}

/// The printed form of an array length; `None` where no form is given.
pub open spec fn array_len_text(len: ArrayLen) -> Option<Seq<char>> {
    match len {
        ArrayLen::Infer => Some("_"@),
        ArrayLen::StrLit(s) => Some(s@),
        ArrayLen::IntLit(s) => Some(s@),
        _ => None,
    }
}

/// The human-readable name of a type, if it has one.
pub open spec fn readable_type_name(t: TypeShape) -> Option<Seq<char>>
    decreases t,
{
    match t {
        TypeShape::Reference(b) => readable_type_name(*b),
        TypeShape::Path(id) => match id {
            Some(s) => Some(s@),
            None => None,
        },
        TypeShape::Array(b, len) => match readable_type_name(*b) {
            Some(ty) => match array_len_text(len) {
                Some(l) => Some("["@ + ty + ";"@ + l + "]"@),
                None => None,
            },
            None => None,
        },
        TypeShape::Other => None,
    }
}

/// Whether naming `t` reaches an array length that has no printed form: the
/// case that stops the attribute.
pub open spec fn type_name_unprintable(t: TypeShape) -> bool
    decreases t,
{
    match t {
        TypeShape::Reference(b) => type_name_unprintable(*b),
        TypeShape::Array(b, len) => type_name_unprintable(*b) || (readable_type_name(*b) is Some
            && array_len_text(len) is None),
        _ => false,
    }
}

/// The printed form of an array length.
fn get_lit_printable(len: &ArrayLen) -> (r: String)
    requires
        array_len_text(*len) is Some,
    ensures
        r@ == array_len_text(*len)->0,
{
    match len {
        ArrayLen::Infer => text("_"),
        ArrayLen::StrLit(s) => s.clone(),
        ArrayLen::IntLit(s) => s.clone(),
        _ => text(""),
    }
}

/// Whether `t` has a readable name, and whether naming it reaches an array
/// length with no printed form.
fn name_status(t: &TypeShape) -> (r: (bool, bool))
    ensures
        r.0 == readable_type_name(*t) is Some,
        r.1 == type_name_unprintable(*t),
    decreases t,
{
    match t {
        TypeShape::Reference(b) => name_status(b),
        TypeShape::Path(id) => (id.is_some(), false),
        TypeShape::Array(b, len) => {
            let (named, bad) = name_status(b);
            let printable = match len {
                ArrayLen::Infer | ArrayLen::StrLit(_) | ArrayLen::IntLit(_) => true,
                _ => false,
            };
            (named && printable, bad || (named && !printable))
        },
        TypeShape::Other => (false, false),
    }
}

/// Whether [`get_type_name`] can name `t`: it cannot when naming reaches an
/// array length with no printed form.
pub fn type_name_printable(t: &TypeShape) -> (r: bool)
    ensures
        r == !type_name_unprintable(*t),
{
    let (_, bad) = name_status(t);
    !bad
}

/// Gets the human-readable name of a type, if it has one. This may not be a
/// valid identifier.
pub fn get_type_name(t: &TypeShape) -> (r: Option<String>)
    requires
        !type_name_unprintable(*t),
    ensures
        match readable_type_name(*t) {
            Some(n) => r matches Some(s) && s@ == n,
            None => r is None,
        },
    decreases t,
{
    match t {
        TypeShape::Reference(b) => get_type_name(b),
        TypeShape::Path(id) => match id {
            Some(s) => Some(s.clone()),
            None => None,
        },
        TypeShape::Array(b, len) => {
            match get_type_name(b) {
                None => None,
                Some(ty) => {
                    let l = get_lit_printable(len);
                    let mut out = text("[");
                    out.append(ty.as_str());
                    out.append(";");
                    out.append(l.as_str());
                    out.append("]");
                    Some(out)
                },
            }
        },
        TypeShape::Other => None,
    }
}

/// Whether `abi` is exactly `extern "C"`.
pub open spec fn is_c_abi(abi: Abi) -> bool {
    abi matches Abi::Named(name) && name@ == "C"@
}

/// A signature passes exactly when it is `unsafe extern "C"`, not variadic,
/// not a method and not `async`.
pub proof fn lemma_signature_accepted_iff(sig: SignatureShape)
    ensures
        signature_messages(sig).len() == 0 <==> (!sig.is_variadic && sig.is_unsafe && is_c_abi(
            sig.abi,
        ) && !sig.has_receiver && !sig.is_async),
{
}

/// A whole declaration passes exactly when its signature passes and it is
/// not visible to Rust code; a refused signature always carries the
/// visibility note last.
pub proof fn lemma_item_accepted_iff(sig: SignatureShape, vis_inherited: bool)
    ensures
        item_messages(sig, vis_inherited).len() == 0 <==> (signature_messages(sig).len() == 0
            && vis_inherited),
        signature_messages(sig).len() > 0 ==> item_messages(sig, vis_inherited).last()
            == msg_no_visibility(),
{
}

/// The function check passes exactly when the function is
/// `unsafe extern "C"`.
pub proof fn lemma_fn_check_accepted_iff(is_unsafe: bool, abi: Abi, span: Seq<char>)
    ensures
        fn_messages(is_unsafe, abi, span).len() == 0 <==> (is_unsafe && is_c_abi(abi)),
{
}

/// Only a function pointer, a slice, a reference, `_` or a macro is refused
/// as a return type.
pub proof fn lemma_return_refused_iff(ret: ReturnShape)
    ensures
        return_refusal(ret) is Some <==> !(ret == ReturnShape::Default || ret == ReturnShape::Other),
{
}

} // verus!
