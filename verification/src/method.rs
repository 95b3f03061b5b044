//! The attributes of a method of a declared interface, and what they say of
//! the request that the method sends and of the response that it expects.
//!
//! A method carries one attribute named after an HTTP method, which says how
//! the request is made, and at most one attribute `expect`, which says what
//! the response must be. Both hold a list of `name = literal`. A name that
//! is not known, or a literal of another kind than the name asks for, is
//! passed over; where a name comes twice, the later one counts.

use crate::text::same_text;
use vstd::prelude::*;

verus! {

/// The literal of a `name = literal`.
#[derive(Debug)]
pub enum Literal {
    /// A string literal, without its quotes.
    Str(String),
    /// An integer literal.
    Int(u64),
    /// A literal of any other kind.
    Other,
}

/// One element of the list that an attribute holds.
#[derive(Debug)]
pub enum Meta {
    /// `name = literal`
    NameValue(String, Literal),
    /// Anything else.
    Other,
}

/// An attribute of a method, as far as it matters here.
#[derive(Debug)]
pub struct Attribute {
    /// Whether the attribute stands before the method, not inside it.
    pub outer: bool,
    /// The last segment of the attribute's path.
    pub name: String,
}

/// Why the attributes of a method do not make a request.
#[derive(Debug, Clone, Copy, PartialEq, Eq, Structural)]
pub enum AttributeError {
    /// A status is no number from 100 to 999.
    InvalidStatus,
    /// Two attributes say how the request is made, or two what is expected.
    Duplicate,
    /// No attribute says how the request is made.
    NoRequest,
}

/// A `Literal`, its string as characters.
pub enum LiteralView {
    Str(Seq<char>),
    Int(u64),
    Other,
}

/// A `Meta`, its strings as characters.
pub enum MetaView {
    NameValue(Seq<char>, LiteralView),
    Other,
}

/// An `Attribute`, its name as characters.
pub struct AttributeView {
    pub outer: bool,
    pub name: Seq<char>,
}

impl View for Literal {
    type V = LiteralView;

    open spec fn view(&self) -> LiteralView {
        match self {
            Literal::Str(s) => LiteralView::Str(s@),
            Literal::Int(n) => LiteralView::Int(*n),
            Literal::Other => LiteralView::Other,
        }
    }
}

impl View for Meta {
    type V = MetaView;

    open spec fn view(&self) -> MetaView {
        match self {
            Meta::NameValue(name, value) => MetaView::NameValue(name@, value@),
            Meta::Other => MetaView::Other,
        }
    }
}

impl View for Attribute {
    type V = AttributeView;

    open spec fn view(&self) -> AttributeView {
        AttributeView { outer: self.outer, name: self.name@ }
    }
}

/// Each element of a list, as its view.
pub open spec fn metas_view(items: Seq<Meta>) -> Seq<MetaView> {
    items.map_values(|m: Meta| m@)
}

/// Each attribute, as its view.
pub open spec fn attributes_view(attrs: Seq<Attribute>) -> Seq<AttributeView> {
    attrs.map_values(|a: Attribute| a@)
}

/// The string that `item` gives the name `name`, if it gives it one.
pub open spec fn str_named(item: MetaView, name: Seq<char>) -> Option<Seq<char>> {
    match item {
        MetaView::NameValue(n, LiteralView::Str(s)) => if n == name {
            Some(s)
        } else {
            None
        },
        _ => None,
    }
}

/// The integer that `item` gives the name `name`, if it gives it one.
pub open spec fn int_named(item: MetaView, name: Seq<char>) -> Option<u64> {
    match item {
        MetaView::NameValue(n, LiteralView::Int(v)) => if n == name {
            Some(v)
        } else {
            None
        },
        _ => None,
    }
}

/// The string that the list gives `name`: that of the last element that
/// gives it one, or `default` where none does.
pub open spec fn last_str(items: Seq<MetaView>, name: Seq<char>, default: Seq<char>) -> Seq<char>
    decreases items.len(),
{
    if items.len() == 0 {
        default
    } else {
        match str_named(items.last(), name) {
            Some(s) => s,
            None => last_str(items.drop_last(), name, default),
        }
    }
}

/// A number that can be the status of a response.
pub open spec fn is_status(n: u16) -> bool {
    100 <= n < 1000
}

/// The status that an integer literal stands for: its low sixteen bits.
pub open spec fn status_of(v: u64) -> u16 {
    (v % 0x10000) as u16
}

/// The status after the list has been read from its start, and whether it
/// was read to its end. Each `status = integer` sets the status; the first
/// that is no status stops the reading and leaves the status as it was.
pub open spec fn status_run(items: Seq<MetaView>, start: u16) -> (u16, bool)
    decreases items.len(),
{
    if items.len() == 0 {
        (start, true)
    } else {
        let before = status_run(items.drop_last(), start);
        if !before.1 {
            before
        } else {
            match int_named(items.last(), "status"@) {
                Some(v) => if is_status(status_of(v)) {
                    (status_of(v), true)
                } else {
                    (before.0, false)
                },
                None => before,
            }
        }
    }
}

/// The name of an attribute that says how a request is made.
pub open spec fn is_method_name(name: Seq<char>) -> bool {
    ||| name == "get"@
    ||| name == "post"@
    ||| name == "put"@
    ||| name == "delete"@
    ||| name == "head"@
    ||| name == "options"@
    ||| name == "connect"@
    ||| name == "patch"@
    ||| name == "trace"@
}

/// The attribute at `i` says what is expected of the response.
pub open spec fn expects_at(attrs: Seq<AttributeView>, i: int) -> bool {
    0 <= i < attrs.len() && attrs[i].outer && attrs[i].name == "expect"@
}

/// The attribute at `i` says how the request is made.
pub open spec fn requests_at(attrs: Seq<AttributeView>, i: int) -> bool {
    0 <= i < attrs.len() && attrs[i].outer && attrs[i].name != "expect"@ && is_method_name(
        attrs[i].name,
    )
}

/// Two attributes say the same kind of thing.
pub open spec fn twice(attrs: Seq<AttributeView>) -> bool {
    ||| exists|i: int, j: int|
        i < j && #[trigger] requests_at(attrs, i) && #[trigger] requests_at(attrs, j)
    ||| exists|i: int, j: int|
        i < j && #[trigger] expects_at(attrs, i) && #[trigger] expects_at(attrs, j)
}

/// What was declared of a body: its content type and its charset.
#[derive(Debug)]
pub struct ContentType {
    content_type: String,
    charset: String,
}

/// A `ContentType`, its strings as characters.
pub struct ContentTypeView {
    pub content_type: Seq<char>,
    pub charset: Seq<char>,
}

impl View for ContentType {
    type V = ContentTypeView;

    closed spec fn view(&self) -> ContentTypeView {
        ContentTypeView { content_type: self.content_type@, charset: self.charset@ }
    }
}

/// What `before` becomes when the list is read: `content_type` and `charset`
/// are what the list gives them, and stay where it gives nothing.
pub open spec fn content_type_loaded(before: ContentTypeView, items: Seq<MetaView>)
    -> ContentTypeView {
    ContentTypeView {
        content_type: last_str(items, "content_type"@, before.content_type),
        charset: last_str(items, "charset"@, before.charset),
    }
}

/// What is declared of a request: the path and the content type of the body.
#[derive(Debug)]
pub struct ReqArgs {
    path: String,
    content_type: ContentType,
}

/// A `ReqArgs`, its strings as characters.
pub struct ReqArgsView {
    pub path: Seq<char>,
    pub content_type: ContentTypeView,
}

impl View for ReqArgs {
    type V = ReqArgsView;

    closed spec fn view(&self) -> ReqArgsView {
        ReqArgsView { path: self.path@, content_type: self.content_type@ }
    }
}

/// What is expected of a response: its status and the content type of its
/// body. The status is a number from 100 to 999.
#[derive(Debug)]
pub struct Expect {
    status: u16,
    content_type: ContentType,
}

/// An `Expect`, its strings as characters.
pub struct ExpectView {
    pub status: u16,
    pub content_type: ContentTypeView,
}

impl View for Expect {
    type V = ExpectView;

    closed spec fn view(&self) -> ExpectView {
        ExpectView { status: self.status, content_type: self.content_type@ }
    }
}

/// What the attributes of one method declare.
#[derive(Debug)]
pub struct Args {
    pub req: ReqArgs,
    pub expect: Expect,
}

/// Where the two attributes of a method stand among its attributes.
#[derive(Debug, Clone, Copy, PartialEq, Eq, Structural)]
pub struct Selected {
    /// The index of the attribute that says how the request is made.
    pub req: usize,
    /// The index of the attribute `expect`, if there is one.
    pub expect: Option<usize>,
}

/// What `filter_method` finds. Two attributes of one kind are an error,
/// wherever they stand. If there are none, the one that says how the
/// request is made must be there, and is found together with `expect`.
pub open spec fn filtered(attrs: Seq<AttributeView>, r: Result<Selected, AttributeError>) -> bool {
    match r {
        Err(AttributeError::Duplicate) => twice(attrs),
        Err(AttributeError::NoRequest) => !twice(attrs) && forall|i: int| !requests_at(attrs, i),
        Err(AttributeError::InvalidStatus) => false,
        Ok(found) => !twice(attrs) && requests_at(attrs, found.req as int) && match found.expect {
            Some(e) => expects_at(attrs, e as int),
            None => forall|i: int| !expects_at(attrs, i),
        },
    }
}

/// The words that say what `e` is, for the method `method_name`.
pub open spec fn error_text(e: AttributeError, method_name: Seq<char>) -> Seq<char> {
    match e {
        AttributeError::InvalidStatus => "invalid status code: invalid status code"@,
        AttributeError::Duplicate => "method `"@ + method_name + "` has duplicate attribute"@,
        AttributeError::NoRequest => "method `"@ + method_name + "` has no request attribute"@,
    }
}

/// `StatusCode::from_u16` accepts the numbers from 100 to 999 and no others.
#[verifier::external_body]
fn status_accepted(n: u16) -> (r: bool)
    ensures
        r == is_status(n),
{
    http::StatusCode::from_u16(n).is_ok()
}

/// The string that the list gives `name`, or `current` where it gives none.
fn pick_str(items: &Vec<Meta>, name: &str, current: String) -> (r: String)
    ensures
        r@ == last_str(metas_view(items@), name@, current@),
{
    let mut found = current;
    let mut i: usize = 0;
    assert(metas_view(items@).take(0) == Seq::<MetaView>::empty());
    while i < items.len()
        invariant
            i <= items.len(),
            found@ == last_str(metas_view(items@).take(i as int), name@, current@),
        decreases items.len() - i,
    {
        proof {
            let all = metas_view(items@);
            assert(all.take(i as int + 1).last() == items@[i as int]@);
            assert(all.take(i as int + 1).drop_last() == all.take(i as int));
        }
        match &items[i] {
            Meta::NameValue(n, Literal::Str(s)) => {
                if same_text(n.as_str(), name) {
                    found = s.clone();
                }
            },
            _ => {},
        }
        i = i + 1;
    }
    assert(metas_view(items@).take(i as int) == metas_view(items@));
    found
}

/// Tells whether `name` names an attribute that says how a request is made.
pub fn method_name(name: &str) -> (r: bool)
    ensures
        r == is_method_name(name@),
{
    same_text(name, "get") || same_text(name, "post") || same_text(name, "put") || same_text(
        name,
        "delete",
    ) || same_text(name, "head") || same_text(name, "options") || same_text(name, "connect")
        || same_text(name, "patch") || same_text(name, "trace")
}

impl AttributeError {
    /// What went wrong with the attributes of the method `method_name`, in
    /// words.
    pub fn message(&self, method_name: &str) -> (r: String)
        ensures
            r@ == error_text(*self, method_name@),
    {
        match self {
            AttributeError::InvalidStatus => String::from_str(
                "invalid status code: invalid status code",
            ),
            AttributeError::Duplicate => String::from_str("method `").concat(method_name).concat(
                "` has duplicate attribute",
            ),
            AttributeError::NoRequest => String::from_str("method `").concat(method_name).concat(
                "` has no request attribute",
            ),
        }
    }
}

impl Default for ContentType {
    /// JSON in UTF-8.
    fn default() -> (r: ContentType)
        ensures
            r@.content_type == "application/json"@,
            r@.charset == "utf-8"@,
    {
        ContentType {
            content_type: String::from_str("application/json"),
            charset: String::from_str("utf-8"),
        }
    }
}

impl ContentType {
    /// The content type that was declared.
    pub fn content_type(&self) -> (r: &str)
        ensures
            r@ == self@.content_type,
    {
        self.content_type.as_str()
    }

    /// The charset that was declared.
    pub fn charset(&self) -> (r: &str)
        ensures
            r@ == self@.charset,
    {
        self.charset.as_str()
    }

    /// What this becomes when `content_type` and `charset` are read from
    /// the list.
    fn loaded(&self, meta: &Vec<Meta>) -> (r: ContentType)
        ensures
            r@ == content_type_loaded(self@, metas_view(meta@)),
    {
        ContentType {
            content_type: pick_str(meta, "content_type", self.content_type.clone()),
            charset: pick_str(meta, "charset", self.charset.clone()),
        }
    }

    /// Reads `content_type` and `charset` from the list.
    pub fn load_meta(&mut self, meta: &Vec<Meta>) -> (r: Result<(), AttributeError>)
        ensures
            r is Ok,
            final(self)@ == content_type_loaded(old(self)@, metas_view(meta@)),
    {
        let next = self.loaded(meta);
        *self = next;
        Ok(())
    }
}

impl Default for ReqArgs {
    /// The path `/`, with JSON in UTF-8.
    fn default() -> (r: ReqArgs)
        ensures
            r@.path == "/"@,
            r@.content_type.content_type == "application/json"@,
            r@.content_type.charset == "utf-8"@,
    {
        ReqArgs { path: String::from_str("/"), content_type: ContentType::default() }
    }
}

impl ReqArgs {
    /// The path of the request.
    pub fn path(&self) -> (r: &str)
        ensures
            r@ == self@.path,
    {
        self.path.as_str()
    }

    /// What was declared of the body of the request.
    pub fn content_type(&self) -> (r: &ContentType)
        ensures
            r@ == self@.content_type,
    {
        &self.content_type
    }

    /// Reads `path`, `content_type` and `charset` from the list.
    pub fn load_meta(&mut self, meta: &Vec<Meta>) -> (r: Result<(), AttributeError>)
        ensures
            r is Ok,
            final(self)@.path == last_str(metas_view(meta@), "path"@, old(self)@.path),
            final(self)@.content_type == content_type_loaded(
                old(self)@.content_type,
                metas_view(meta@),
            ),
    {
        let path = pick_str(meta, "path", self.path.clone());
        self.path = path;
        self.content_type.load_meta(meta)
    }
}

impl Default for Expect {
    /// The status 200, with JSON in UTF-8.
    fn default() -> (r: Expect)
        ensures
            r@.status == 200,
            r@.content_type.content_type == "application/json"@,
            r@.content_type.charset == "utf-8"@,
    {
        Expect { status: 200, content_type: ContentType::default() }
    }
}

impl Expect {
    /// The status is one that a response can have.
    #[verifier::type_invariant]
    spec fn inv(self) -> bool {
        is_status(self.status)
    }

    /// The status that the response must have, from 100 to 999.
    pub fn status(&self) -> (r: u16)
        ensures
            r == self@.status,
            is_status(r),
    {
        proof {
            use_type_invariant(self);
        }
        self.status
    }

    /// What was declared of the body of the response.
    pub fn content_type(&self) -> (r: &ContentType)
        ensures
            r@ == self@.content_type,
    {
        &self.content_type
    }

    /// Reads `status`, `content_type` and `charset` from the list. A status
    /// that is none stops the reading with an error; what was read of the
    /// status before it stays, and the content type is left untouched.
    pub fn load_meta(&mut self, meta: &Vec<Meta>) -> (r: Result<(), AttributeError>)
        ensures
            final(self)@.status == status_run(metas_view(meta@), old(self)@.status).0,
            match r {
                Ok(_) => status_run(metas_view(meta@), old(self)@.status).1
                    && final(self)@.content_type == content_type_loaded(
                    old(self)@.content_type,
                    metas_view(meta@),
                ),
                Err(e) => e == AttributeError::InvalidStatus && !status_run(
                    metas_view(meta@),
                    old(self)@.status,
                ).1 && final(self)@.content_type == old(self)@.content_type,
            },
    {
        let ghost start = self.status;
        let ghost all = metas_view(meta@);
        let mut i: usize = 0;
        proof {
            use_type_invariant(&*self);
            assert(all.take(0) == Seq::<MetaView>::empty());
        }
        while i < meta.len()
            invariant
                i <= meta.len(),
                all == metas_view(meta@),
                start == old(self).status,
                is_status(self.status),
                self.content_type == old(self).content_type,
                status_run(all.take(i as int), start) == (self.status, true),
            decreases meta.len() - i,
        {
            proof {
                assert(all.take(i as int + 1).last() == meta@[i as int]@);
                assert(all.take(i as int + 1).drop_last() == all.take(i as int));
            }
            match &meta[i] {
                Meta::NameValue(n, Literal::Int(v)) => {
                    if same_text(n.as_str(), "status") {
                        let status = (*v % 0x10000) as u16;
                        if !status_accepted(status) {
                            proof {
                                assert(int_named(all.take(i as int + 1).last(), "status"@) == Some(
                                    *v,
                                ));
                                assert(status_run(all.take(i as int + 1), start) == (
                                    self.status,
                                    false,
                                ));
                                lemma_status_run_stops(all, i as int + 1, start);
                            }
                            return Err(AttributeError::InvalidStatus);
                        }
                        self.status = status;
                    }
                },
                _ => {},
            }
            i = i + 1;
        }
        assert(all.take(i as int) == all);
        let content_type = self.content_type.loaded(meta);
        self.content_type = content_type;
        Ok(())
    }
}

/// Once the reading of a status has stopped, the rest of the list changes
/// nothing.
pub proof fn lemma_status_run_stops(items: Seq<MetaView>, k: int, start: u16)
    requires
        0 <= k <= items.len(),
        !status_run(items.take(k), start).1,
    ensures
        status_run(items, start) == status_run(items.take(k), start),
    decreases items.len() - k,
{
    if k < items.len() {
        assert(items.drop_last().take(k) == items.take(k));
        lemma_status_run_stops(items.drop_last(), k, start);
    } else {
        assert(items.take(k) == items);
    }
}

/// Refuses a second attribute of a kind: `slot` must still be empty.
pub fn check_duplicate(slot: &Option<usize>) -> (r: Result<(), AttributeError>)
    ensures
        match r {
            Ok(_) => slot is None,
            Err(e) => slot is Some && e == AttributeError::Duplicate,
        },
{
    match slot {
        None => Ok(()),
        Some(_) => Err(AttributeError::Duplicate),
    }
}

/// Finds, among the attributes of a method, the one that says how the
/// request is made and the one that says what is expected. Only attributes
/// that stand before the method count.
pub fn filter_method(attrs: &Vec<Attribute>) -> (r: Result<Selected, AttributeError>)
    ensures
        filtered(attributes_view(attrs@), r),
{
    let ghost all = attributes_view(attrs@);
    let mut req: Option<usize> = None;
    let mut expect: Option<usize> = None;
    let mut k: usize = 0;
    while k < attrs.len()
        invariant
            k <= attrs.len(),
            all == attributes_view(attrs@),
            forall|i: int, j: int|
                i < j < k ==> !(#[trigger] requests_at(all, i) && #[trigger] requests_at(all, j)),
            forall|i: int, j: int|
                i < j < k ==> !(#[trigger] expects_at(all, i) && #[trigger] expects_at(all, j)),
            match req {
                Some(q) => q < k && requests_at(all, q as int),
                None => forall|i: int| i < k ==> !requests_at(all, i),
            },
            match expect {
                Some(e) => e < k && expects_at(all, e as int),
                None => forall|i: int| i < k ==> !expects_at(all, i),
            },
        decreases attrs.len() - k,
    {
        assert(all[k as int] == attrs@[k as int]@);
        if attrs[k].outer {
            if same_text(attrs[k].name.as_str(), "expect") {
                match check_duplicate(&expect) {
                    Err(e) => {
                        assert(expects_at(all, expect->0 as int) && expects_at(all, k as int));
                        return Err(e);
                    },
                    Ok(_) => {},
                }
                expect = Some(k);
            } else if method_name(attrs[k].name.as_str()) {
                match check_duplicate(&req) {
                    Err(e) => {
                        assert(requests_at(all, req->0 as int) && requests_at(all, k as int));
                        return Err(e);
                    },
                    Ok(_) => {},
                }
                req = Some(k);
            }
        }
        k = k + 1;
    }
    match req {
        Some(q) => Ok(Selected { req: q, expect }),
        None => Err(AttributeError::NoRequest),
    }
}

/// What the two lists declare, starting from the defaults: the list of the
/// attribute that makes the request, and that of `expect` where there is
/// one.
pub fn gen_args(req_meta: &Vec<Meta>, expect_meta: Option<&Vec<Meta>>) -> (r: Result<
    Args,
    AttributeError,
>)
    ensures
        match r {
            Ok(args) => {
                &&& args.req@.path == last_str(metas_view(req_meta@), "path"@, "/"@)
                &&& args.req@.content_type == content_type_loaded(
                    ContentTypeView {
                        content_type: "application/json"@,
                        charset: "utf-8"@,
                    },
                    metas_view(req_meta@),
                )
                &&& match expect_meta {
                    Some(meta) => {
                        &&& status_run(metas_view(meta@), 200).1
                        &&& args.expect@.status == status_run(metas_view(meta@), 200).0
                        &&& args.expect@.content_type == content_type_loaded(
                            ContentTypeView {
                                content_type: "application/json"@,
                                charset: "utf-8"@,
                            },
                            metas_view(meta@),
                        )
                    },
                    None => {
                        &&& args.expect@.status == 200
                        &&& args.expect@.content_type == ContentTypeView {
                            content_type: "application/json"@,
                            charset: "utf-8"@,
                        }
                    },
                }
            },
            Err(e) => {
                &&& e == AttributeError::InvalidStatus
                &&& expect_meta matches Some(meta)
                &&& !status_run(metas_view(meta@), 200).1
            },
        },
{
    let mut req = ReqArgs::default();
    let mut expect = Expect::default();
    match req.load_meta(req_meta) {
        Err(e) => {
            return Err(e);
        },
        Ok(_) => {},
    }
    match expect_meta {
        Some(meta) => match expect.load_meta(meta) {
            Err(e) => {
                return Err(e);
            },
            Ok(_) => {},
        },
        None => {},
    }
    Ok(Args { req, expect })
}

} // verus!
