//! Message segments: the typed pieces that make up a chat message.
use vstd::prelude::*;

verus! {

/// One segment of a chat message: its kind and its string parameters, in order.
pub struct Message {
    pub msg_type: String,
    pub data: Vec<(String, String)>,
}

/// The parameters of a segment as pairs of character sequences.
pub open spec fn pairs_view(v: Seq<(String, String)>) -> Seq<(Seq<char>, Seq<char>)> {
    v.map_values(|p: (String, String)| (p.0@, p.1@))
}

/// No two parameters share a key.
pub open spec fn keys_unique(v: Seq<(String, String)>) -> bool {
    forall|i: int, j: int| 0 <= i < j < v.len() ==> v[i].0@ != v[j].0@
}

impl Message {
    /// A segment's parameters form a map: their keys are distinct.
    pub open spec fn wf(&self) -> bool {
        keys_unique(self.data@)
    }
}

impl View for Message {
    type V = (Seq<char>, Seq<(Seq<char>, Seq<char>)>);

    open spec fn view(&self) -> Self::V {
        (self.msg_type@, pairs_view(self.data@))
    }
}

/// The character of a decimal digit.
pub open spec fn digit_char(d: nat) -> char {
    seq!['0', '1', '2', '3', '4', '5', '6', '7', '8', '9'][d as int]
}

/// The decimal digits of `n`, most significant first, without leading zeros.
pub open spec fn digits_of(n: nat) -> Seq<char>
    decreases n,
{
    if n < 10 {
        seq![digit_char(n)]
    } else {
        digits_of(n / 10).push(digit_char(n % 10))
    }
}

/// The decimal rendering of `v`, with a leading `-` when negative.
pub open spec fn decimal_of(v: int) -> Seq<char> {
    if v < 0 {
        seq!['-'] + digits_of((-v) as nat)
    } else {
        digits_of(v as nat)
    }
}

/// Relies on `ToString` for `i64`, that is its `Display`: the decimal digits of
/// the value, preceded by `-` when it is negative.
#[verifier::external_body]
fn decimal_string(v: i64) -> (r: String)
    ensures
        r@ == decimal_of(v as int),
{
    v.to_string()
}

/// A plain text segment.
pub fn text(content: &str) -> (r: Message)
    ensures
        r.wf(),
        r@ == ("text"@, seq![("text"@, content@)]),
{
    let mut data: Vec<(String, String)> = Vec::new();
    data.push(("text".to_owned(), content.to_owned()));
    let r = Message { msg_type: "text".to_owned(), data };
    proof {
        assert(pairs_view(r.data@) =~= seq![("text"@, content@)]);
    }
    r
}

/// An image segment loaded from `url`.
pub fn image(url: &str) -> (r: Message)
    ensures
        r.wf(),
        r@ == ("image"@, seq![("url"@, url@)]),
{
    let mut data: Vec<(String, String)> = Vec::new();
    data.push(("url".to_owned(), url.to_owned()));
    let r = Message { msg_type: "image".to_owned(), data };
    proof {
        assert(pairs_view(r.data@) =~= seq![("url"@, url@)]);
    }
    r
}

/// A voice record segment loaded from `url`.
pub fn record(url: &str) -> (r: Message)
    ensures
        r.wf(),
        r@ == ("record"@, seq![("url"@, url@)]),
{
    let mut data: Vec<(String, String)> = Vec::new();
    data.push(("url".to_owned(), url.to_owned()));
    let r = Message { msg_type: "record".to_owned(), data };
    proof {
        assert(pairs_view(r.data@) =~= seq![("url"@, url@)]);
    }
    r
}

/// A flash image: an image segment of type `flash`.
pub fn flash(url: &str) -> (r: Message)
    ensures
        r.wf(),
        r@ == ("image"@, seq![("url"@, url@), ("type"@, "flash"@)]),
{
    let mut data: Vec<(String, String)> = Vec::new();
    data.push(("url".to_owned(), url.to_owned()));
    data.push(("type".to_owned(), "flash".to_owned()));
    let r = Message { msg_type: "image".to_owned(), data };
    proof {
        reveal_strlit("url");
        reveal_strlit("type");
        assert("url"@.len() != "type"@.len());
        assert(pairs_view(r.data@) =~= seq![("url"@, url@), ("type"@, "flash"@)]);
    }
    r
}

/// A show image: an image segment of type `show` with its effect.
pub fn show(url: &str, effect_id: i32) -> (r: Message)
    ensures
        r.wf(),
        r@ == ("image"@, seq![("url"@, url@), ("type"@, "show"@), ("effect_id"@, decimal_of(effect_id as int))]),
{
    let mut data: Vec<(String, String)> = Vec::new();
    data.push(("url".to_owned(), url.to_owned()));
    data.push(("type".to_owned(), "show".to_owned()));
    data.push(("effect_id".to_owned(), decimal_string(effect_id as i64)));
    let r = Message { msg_type: "image".to_owned(), data };
    proof {
        reveal_strlit("url");
        reveal_strlit("type");
        reveal_strlit("effect_id");
        assert("url"@.len() != "type"@.len());
        assert("url"@.len() != "effect_id"@.len());
        assert("type"@.len() != "effect_id"@.len());
        assert(pairs_view(r.data@) =~= seq![("url"@, url@), ("type"@, "show"@), ("effect_id"@, decimal_of(effect_id as int))]);
    }
    r
}

/// A mention of the user `qq`.
pub fn at(qq: i64) -> (r: Message)
    ensures
        r.wf(),
        r@ == ("at"@, seq![("at"@, decimal_of(qq as int))]),
{
    let mut data: Vec<(String, String)> = Vec::new();
    data.push(("at".to_owned(), decimal_string(qq)));
    let r = Message { msg_type: "at".to_owned(), data };
    proof {
        assert(pairs_view(r.data@) =~= seq![("at"@, decimal_of(qq as int))]);
    }
    r
}

/// A mention of every member.
pub fn at_all() -> (r: Message)
    ensures
        r.wf(),
        r@ == ("at"@, seq![("qq"@, "all"@)]),
{
    let mut data: Vec<(String, String)> = Vec::new();
    data.push(("qq".to_owned(), "all".to_owned()));
    let r = Message { msg_type: "at".to_owned(), data };
    proof {
        assert(pairs_view(r.data@) =~= seq![("qq"@, "all"@)]);
    }
    r
}

/// A built-in face with number `id`.
pub fn face(id: i32) -> (r: Message)
    ensures
        r.wf(),
        r@ == ("face"@, seq![("id"@, decimal_of(id as int))]),
{
    let mut data: Vec<(String, String)> = Vec::new();
    data.push(("id".to_owned(), decimal_string(id as i64)));
    let r = Message { msg_type: "face".to_owned(), data };
    proof {
        assert(pairs_view(r.data@) =~= seq![("id"@, decimal_of(id as int))]);
    }
    r
}

/// A poke at the user `qq`.
pub fn poke(qq: i64) -> (r: Message)
    ensures
        r.wf(),
        r@ == ("poke"@, seq![("qq"@, decimal_of(qq as int))]),
{
    let mut data: Vec<(String, String)> = Vec::new();
    data.push(("qq".to_owned(), decimal_string(qq)));
    let r = Message { msg_type: "poke".to_owned(), data };
    proof {
        assert(pairs_view(r.data@) =~= seq![("qq"@, decimal_of(qq as int))]);
    }
    r
}

/// A link share card.
pub fn share(url: &str, title: &str, content: &str, image: &str) -> (r: Message)
    ensures
        r.wf(),
        r@ == ("share"@, seq![("url"@, url@), ("title"@, title@), ("content"@, content@), ("image"@, image@)]),
{
    let mut data: Vec<(String, String)> = Vec::new();
    data.push(("url".to_owned(), url.to_owned()));
    data.push(("title".to_owned(), title.to_owned()));
    data.push(("content".to_owned(), content.to_owned()));
    data.push(("image".to_owned(), image.to_owned()));
    let r = Message { msg_type: "share".to_owned(), data };
    proof {
        reveal_strlit("url");
        reveal_strlit("title");
        reveal_strlit("content");
        reveal_strlit("image");
        assert("url"@.len() != "title"@.len());
        assert("url"@.len() != "content"@.len());
        assert("url"@.len() != "image"@.len());
        assert("title"@.len() != "content"@.len());
        assert("title"@[0] != "image"@[0]);
        assert("content"@.len() != "image"@.len());
        assert(pairs_view(r.data@) =~= seq![("url"@, url@), ("title"@, title@), ("content"@, content@), ("image"@, image@)]);
    }
    r
}

/// A light app card with the given content.
pub fn light_app(content: &str) -> (r: Message)
    ensures
        r.wf(),
        r@ == ("light_app"@, seq![("content"@, content@)]),
{
    let mut data: Vec<(String, String)> = Vec::new();
    data.push(("content".to_owned(), content.to_owned()));
    let r = Message { msg_type: "light_app".to_owned(), data };
    proof {
        assert(pairs_view(r.data@) =~= seq![("content"@, content@)]);
    }
    r
}

/// A service card in XML.
pub fn xml(id: i32, content: &str) -> (r: Message)
    ensures
        r.wf(),
        r@ == ("service"@, seq![("sub_type"@, "xml"@), ("id"@, decimal_of(id as int)), ("content"@, content@)]),
{
    let mut data: Vec<(String, String)> = Vec::new();
    data.push(("sub_type".to_owned(), "xml".to_owned()));
    data.push(("id".to_owned(), decimal_string(id as i64)));
    data.push(("content".to_owned(), content.to_owned()));
    let r = Message { msg_type: "service".to_owned(), data };
    proof {
        reveal_strlit("sub_type");
        reveal_strlit("id");
        reveal_strlit("content");
        assert("sub_type"@.len() != "id"@.len());
        assert("sub_type"@.len() != "content"@.len());
        assert("id"@.len() != "content"@.len());
        assert(pairs_view(r.data@) =~= seq![("sub_type"@, "xml"@), ("id"@, decimal_of(id as int)), ("content"@, content@)]);
    }
    r
}

/// A service card in JSON.
pub fn json(id: i32, content: &str) -> (r: Message)
    ensures
        r.wf(),
        r@ == ("service"@, seq![("sub_type"@, "json"@), ("id"@, decimal_of(id as int)), ("content"@, content@)]),
{
    let mut data: Vec<(String, String)> = Vec::new();
    data.push(("sub_type".to_owned(), "json".to_owned()));
    data.push(("id".to_owned(), decimal_string(id as i64)));
    data.push(("content".to_owned(), content.to_owned()));
    let r = Message { msg_type: "service".to_owned(), data };
    proof {
        reveal_strlit("sub_type");
        reveal_strlit("id");
        reveal_strlit("content");
        assert("sub_type"@.len() != "id"@.len());
        assert("sub_type"@.len() != "content"@.len());
        assert("id"@.len() != "content"@.len());
        assert(pairs_view(r.data@) =~= seq![("sub_type"@, "json"@), ("id"@, decimal_of(id as int)), ("content"@, content@)]);
    }
    r
}

/// A reply to the message `message_id`.
pub fn reply(message_id: i32) -> (r: Message)
    ensures
        r.wf(),
        r@ == ("reply"@, seq![("message_id"@, decimal_of(message_id as int))]),
{
    let mut data: Vec<(String, String)> = Vec::new();
    data.push(("message_id".to_owned(), decimal_string(message_id as i64)));
    let r = Message { msg_type: "reply".to_owned(), data };
    proof {
        assert(pairs_view(r.data@) =~= seq![("message_id"@, decimal_of(message_id as int))]);
    }
    r
}

/// A pause of `time` between segments.
pub fn sleep(time: i64) -> (r: Message)
    ensures
        r.wf(),
        r@ == ("sleep"@, seq![("time"@, decimal_of(time as int))]),
{
    let mut data: Vec<(String, String)> = Vec::new();
    data.push(("time".to_owned(), decimal_string(time)));
    let r = Message { msg_type: "sleep".to_owned(), data };
    proof {
        assert(pairs_view(r.data@) =~= seq![("time"@, decimal_of(time as int))]);
    }
    r
}

/// A text-to-speech segment.
pub fn tts(text: &str) -> (r: Message)
    ensures
        r.wf(),
        r@ == ("tts"@, seq![("text"@, text@)]),
{
    let mut data: Vec<(String, String)> = Vec::new();
    data.push(("text".to_owned(), text.to_owned()));
    let r = Message { msg_type: "tts".to_owned(), data };
    proof {
        assert(pairs_view(r.data@) =~= seq![("text"@, text@)]);
    }
    r
}

/// A video segment; `cache` is sent as `1` or `0`.
pub fn video(url: &str, cover: &str, cache: bool) -> (r: Message)
    ensures
        r.wf(),
        r@ == ("video"@, seq![("url"@, url@), ("cover"@, cover@), ("cache"@, (if cache { "1"@ } else { "0"@ }))]),
{
    let mut data: Vec<(String, String)> = Vec::new();
    data.push(("url".to_owned(), url.to_owned()));
    data.push(("cover".to_owned(), cover.to_owned()));
    data.push(("cache".to_owned(), if cache { "1".to_owned() } else { "0".to_owned() }));
    let r = Message { msg_type: "video".to_owned(), data };
    proof {
        reveal_strlit("url");
        reveal_strlit("cover");
        reveal_strlit("cache");
        assert("url"@.len() != "cover"@.len());
        assert("url"@.len() != "cache"@.len());
        assert("cover"@[1] != "cache"@[1]);
        assert(pairs_view(r.data@) =~= seq![("url"@, url@), ("cover"@, cover@), ("cache"@, (if cache { "1"@ } else { "0"@ }))]);
    }
    r
}

/// A gift `id` to the user `qq`.
pub fn gift(qq: i64, id: i32) -> (r: Message)
    ensures
        r.wf(),
        r@ == ("gift"@, seq![("qq"@, decimal_of(qq as int)), ("id"@, decimal_of(id as int))]),
{
    let mut data: Vec<(String, String)> = Vec::new();
    data.push(("qq".to_owned(), decimal_string(qq)));
    data.push(("id".to_owned(), decimal_string(id as i64)));
    let r = Message { msg_type: "gift".to_owned(), data };
    proof {
        reveal_strlit("qq");
        reveal_strlit("id");
        assert("qq"@[0] != "id"@[0]);
        assert(pairs_view(r.data@) =~= seq![("qq"@, decimal_of(qq as int)), ("id"@, decimal_of(id as int))]);
    }
    r
}

/// The views of a sequence of segments.
pub open spec fn views(s: Seq<Message>) -> Seq<(Seq<char>, Seq<(Seq<char>, Seq<char>)>)> {
    s.map_values(|m: Message| m@)
}

impl Clone for Message {
    /// A segment with the same kind and parameters.
    fn clone(&self) -> (r: Message)
        ensures
            r@ == self@,
    {
        let mut data: Vec<(String, String)> = Vec::new();
        let mut i: usize = 0;
        while i < self.data.len()
            invariant
                i <= self.data@.len(),
                data@.len() == i,
                forall|j: int| 0 <= j < i ==> #[trigger] data@[j] == self.data@[j],
            decreases self.data@.len() - i,
        {
            let k = self.data[i].0.clone();
            let v = self.data[i].1.clone();
            data.push((k, v));
            i = i + 1;
        }
        let r = Message { msg_type: self.msg_type.clone(), data };
        proof {
            assert(r.data@ =~= self.data@);
        }
        r
    }
}

/// Copies of the segments, in order.
fn clone_all(v: &Vec<Message>) -> (r: Vec<Message>)
    ensures
        views(r@) == views(v@),
{
    let mut r: Vec<Message> = Vec::new();
    let mut i: usize = 0;
    while i < v.len()
        invariant
            i <= v@.len(),
            r@.len() == i,
            forall|j: int| 0 <= j < i ==> #[trigger] r@[j]@ == v@[j]@,
        decreases v@.len() - i,
    {
        r.push(v[i].clone());
        i = i + 1;
    }
    proof {
        assert(views(r@) =~= views(v@));
    }
    r
}

impl vstd::std_specs::ops::AddSpecImpl<Message> for Message {
    open spec fn obeys_add_spec() -> bool {
        false
    }

    open spec fn add_req(self, rhs: Message) -> bool {
        true
    }

    open spec fn add_spec(self, rhs: Message) -> Vec<Message> {
        arbitrary()
    }
}

impl core::ops::Add<Message> for Message {
    type Output = Vec<Message>;

    /// Two segments, in order.
    fn add(self, rhs: Message) -> (r: Vec<Message>)
        ensures
            r@ == seq![self, rhs],
    {
        let mut r: Vec<Message> = Vec::new();
        r.push(self);
        r.push(rhs);
        r
    }
}

impl vstd::std_specs::ops::AddSpecImpl<Vec<Message>> for Message {
    open spec fn obeys_add_spec() -> bool {
        false
    }

    open spec fn add_req(self, rhs: Vec<Message>) -> bool {
        true
    }

    open spec fn add_spec(self, rhs: Vec<Message>) -> Vec<Message> {
        arbitrary()
    }
}

impl core::ops::Add<Vec<Message>> for Message {
    type Output = Vec<Message>;

    /// The segment followed by the segments of `rhs`.
    fn add(self, rhs: Vec<Message>) -> (r: Vec<Message>)
        ensures
            r@ == seq![self] + rhs@,
    {
        let mut r: Vec<Message> = Vec::new();
        r.push(self);
        let mut rest = rhs;
        r.append(&mut rest);
        r
    }
}

impl vstd::std_specs::ops::AddSpecImpl<Message> for Vec<Message> {
    open spec fn obeys_add_spec() -> bool {
        false
    }

    open spec fn add_req(self, rhs: Message) -> bool {
        true
    }

    open spec fn add_spec(self, rhs: Message) -> Vec<Message> {
        arbitrary()
    }
}

impl core::ops::Add<Message> for Vec<Message> {
    type Output = Vec<Message>;

    /// The segments, then `rhs`.
    fn add(self, rhs: Message) -> (r: Vec<Message>)
        ensures
            r@ == self@.push(rhs),
    {
        let mut r = self;
        r.push(rhs);
        r
    }
}

impl vstd::std_specs::convert::FromSpecImpl<Message> for Vec<Message> {
    open spec fn obeys_from_spec() -> bool {
        false
    }

    open spec fn from_spec(v: Message) -> Vec<Message> {
        arbitrary()
    }
}

impl From<Message> for Vec<Message> {
    /// A message of the one segment.
    fn from(message: Message) -> (r: Vec<Message>)
        ensures
            r@ == seq![message],
    {
        let mut r: Vec<Message> = Vec::new();
        r.push(message);
        r
    }
}

impl<'b> vstd::std_specs::ops::AddSpecImpl<&'b Message> for Message {
    open spec fn obeys_add_spec() -> bool {
        false
    }

    open spec fn add_req(self, rhs: &'b Message) -> bool {
        true
    }

    open spec fn add_spec(self, rhs: &'b Message) -> Vec<Message> {
        arbitrary()
    }
}

impl<'b> core::ops::Add<&'b Message> for Message {
    type Output = Vec<Message>;

    /// The segment followed by a copy of `rhs`.
    fn add(self, rhs: &'b Message) -> (r: Vec<Message>)
        ensures
            views(r@) == seq![self@, rhs@],
    {
        let mut r: Vec<Message> = Vec::new();
        r.push(self);
        r.push(rhs.clone());
        r
    }
}

impl<'a> vstd::std_specs::ops::AddSpecImpl<Message> for &'a Message {
    open spec fn obeys_add_spec() -> bool {
        false
    }

    open spec fn add_req(self, rhs: Message) -> bool {
        true
    }

    open spec fn add_spec(self, rhs: Message) -> Vec<Message> {
        arbitrary()
    }
}

impl<'a> core::ops::Add<Message> for &'a Message {
    type Output = Vec<Message>;

    /// A copy of the segment followed by `rhs`.
    fn add(self, rhs: Message) -> (r: Vec<Message>)
        ensures
            views(r@) == seq![self@, rhs@],
    {
        let mut r: Vec<Message> = Vec::new();
        r.push(self.clone());
        r.push(rhs);
        r
    }
}

impl<'a, 'b> vstd::std_specs::ops::AddSpecImpl<&'b Message> for &'a Message {
    open spec fn obeys_add_spec() -> bool {
        false
    }

    open spec fn add_req(self, rhs: &'b Message) -> bool {
        true
    }

    open spec fn add_spec(self, rhs: &'b Message) -> Vec<Message> {
        arbitrary()
    }
}

impl<'a, 'b> core::ops::Add<&'b Message> for &'a Message {
    type Output = Vec<Message>;

    /// Copies of both segments, in order.
    fn add(self, rhs: &'b Message) -> (r: Vec<Message>)
        ensures
            views(r@) == seq![self@, rhs@],
    {
        let mut r: Vec<Message> = Vec::new();
        r.push(self.clone());
        r.push(rhs.clone());
        r
    }
}

impl<'b> vstd::std_specs::ops::AddSpecImpl<&'b Vec<Message>> for Message {
    open spec fn obeys_add_spec() -> bool {
        false
    }

    open spec fn add_req(self, rhs: &'b Vec<Message>) -> bool {
        true
    }

    open spec fn add_spec(self, rhs: &'b Vec<Message>) -> Vec<Message> {
        arbitrary()
    }
}

impl<'b> core::ops::Add<&'b Vec<Message>> for Message {
    type Output = Vec<Message>;

    /// The segment followed by copies of the segments of `rhs`.
    fn add(self, rhs: &'b Vec<Message>) -> (r: Vec<Message>)
        ensures
            views(r@) == seq![self@] + views(rhs@),
    {
        let mut r: Vec<Message> = Vec::new();
        r.push(self);
        let mut rest = clone_all(rhs);
        r.append(&mut rest);
        r
    }
}

impl<'a> vstd::std_specs::ops::AddSpecImpl<Vec<Message>> for &'a Message {
    open spec fn obeys_add_spec() -> bool {
        false
    }

    open spec fn add_req(self, rhs: Vec<Message>) -> bool {
        true
    }

    open spec fn add_spec(self, rhs: Vec<Message>) -> Vec<Message> {
        arbitrary()
    }
}

impl<'a> core::ops::Add<Vec<Message>> for &'a Message {
    type Output = Vec<Message>;

    /// A copy of the segment followed by the segments of `rhs`.
    fn add(self, rhs: Vec<Message>) -> (r: Vec<Message>)
        ensures
            views(r@) == seq![self@] + views(rhs@),
    {
        let mut r: Vec<Message> = Vec::new();
        r.push(self.clone());
        let mut rest = rhs;
        r.append(&mut rest);
        r
    }
}

impl<'a, 'b> vstd::std_specs::ops::AddSpecImpl<&'b Vec<Message>> for &'a Message {
    open spec fn obeys_add_spec() -> bool {
        false
    }

    open spec fn add_req(self, rhs: &'b Vec<Message>) -> bool {
        true
    }

    open spec fn add_spec(self, rhs: &'b Vec<Message>) -> Vec<Message> {
        arbitrary()
    }
}

impl<'a, 'b> core::ops::Add<&'b Vec<Message>> for &'a Message {
    type Output = Vec<Message>;

    /// Copies of the segment and of the segments of `rhs`.
    fn add(self, rhs: &'b Vec<Message>) -> (r: Vec<Message>)
        ensures
            views(r@) == seq![self@] + views(rhs@),
    {
        let mut r: Vec<Message> = Vec::new();
        r.push(self.clone());
        let mut rest = clone_all(rhs);
        r.append(&mut rest);
        r
    }
}

impl<'b> vstd::std_specs::ops::AddSpecImpl<&'b Message> for Vec<Message> {
    open spec fn obeys_add_spec() -> bool {
        false
    }

    open spec fn add_req(self, rhs: &'b Message) -> bool {
        true
    }

    open spec fn add_spec(self, rhs: &'b Message) -> Vec<Message> {
        arbitrary()
    }
}

impl<'b> core::ops::Add<&'b Message> for Vec<Message> {
    type Output = Vec<Message>;

    /// The segments, then a copy of `rhs`.
    fn add(self, rhs: &'b Message) -> (r: Vec<Message>)
        ensures
            views(r@) == views(self@).push(rhs@),
    {
        let mut r = self;
        r.push(rhs.clone());
        r
    }
}

impl<'a> vstd::std_specs::ops::AddSpecImpl<Message> for &'a Vec<Message> {
    open spec fn obeys_add_spec() -> bool {
        false
    }

    open spec fn add_req(self, rhs: Message) -> bool {
        true
    }

    open spec fn add_spec(self, rhs: Message) -> Vec<Message> {
        arbitrary()
    }
}

impl<'a> core::ops::Add<Message> for &'a Vec<Message> {
    type Output = Vec<Message>;

    /// Copies of the segments, then `rhs`.
    fn add(self, rhs: Message) -> (r: Vec<Message>)
        ensures
            views(r@) == views(self@).push(rhs@),
    {
        let mut r = clone_all(self);
        r.push(rhs);
        r
    }
}

impl<'a, 'b> vstd::std_specs::ops::AddSpecImpl<&'b Message> for &'a Vec<Message> {
    open spec fn obeys_add_spec() -> bool {
        false
    }

    open spec fn add_req(self, rhs: &'b Message) -> bool {
        true
    }

    open spec fn add_spec(self, rhs: &'b Message) -> Vec<Message> {
        arbitrary()
    }
}

impl<'a, 'b> core::ops::Add<&'b Message> for &'a Vec<Message> {
    type Output = Vec<Message>;

    /// Copies of the segments and of `rhs`.
    fn add(self, rhs: &'b Message) -> (r: Vec<Message>)
        ensures
            views(r@) == views(self@).push(rhs@),
    {
        let mut r = clone_all(self);
        r.push(rhs.clone());
        r
    }
}

} // verus!
