use pbbot::msg::{
    at, at_all, face, flash, gift, image, json, light_app, poke, record, reply, share, show, sleep,
    text, tts, video, xml, Message,
};

fn pairs(items: &[(&str, &str)]) -> Vec<(String, String)> {
    items.iter().map(|(k, v)| (k.to_string(), v.to_string())).collect()
}

fn check(m: &Message, kind: &str, items: &[(&str, &str)]) {
    assert_eq!(m.msg_type, kind);
    assert_eq!(m.data, pairs(items));
}

#[test]
fn text_segment() {
    check(&text("hi"), "text", &[("text", "hi")]);
    check(&text(""), "text", &[("text", "")]);
}

#[test]
fn media_segments() {
    check(&image("http://a/b.png"), "image", &[("url", "http://a/b.png")]);
    check(&record("http://a/b.amr"), "record", &[("url", "http://a/b.amr")]);
    check(&flash("u"), "image", &[("url", "u"), ("type", "flash")]);
    check(&show("u", 40000), "image", &[("url", "u"), ("type", "show"), ("effect_id", "40000")]);
    check(&show("u", -5), "image", &[("url", "u"), ("type", "show"), ("effect_id", "-5")]);
}

#[test]
fn video_cache_flag() {
    check(&video("v", "c", true), "video", &[("url", "v"), ("cover", "c"), ("cache", "1")]);
    check(&video("v", "c", false), "video", &[("url", "v"), ("cover", "c"), ("cache", "0")]);
}

#[test]
fn mention_segments() {
    check(&at(123456789012), "at", &[("at", "123456789012")]);
    check(&at_all(), "at", &[("qq", "all")]);
    check(&poke(-7), "poke", &[("qq", "-7")]);
    check(&gift(10001, 3), "gift", &[("qq", "10001"), ("id", "3")]);
}

#[test]
fn number_segments() {
    check(&face(0), "face", &[("id", "0")]);
    check(&reply(i32::MIN), "reply", &[("message_id", "-2147483648")]);
    check(&sleep(i64::MAX), "sleep", &[("time", "9223372036854775807")]);
}

#[test]
fn card_segments() {
    check(&share("u", "t", "c", "i"), "share", &[("url", "u"), ("title", "t"), ("content", "c"), ("image", "i")]);
    check(&light_app("{}"), "light_app", &[("content", "{}")]);
    check(&xml(1, "<x/>"), "service", &[("sub_type", "xml"), ("id", "1"), ("content", "<x/>")]);
    check(&json(2, "{}"), "service", &[("sub_type", "json"), ("id", "2"), ("content", "{}")]);
    check(&tts("hello"), "tts", &[("text", "hello")]);
}

#[test]
fn joining_segments() {
    let two = text("a") + face(1);
    assert_eq!(two.len(), 2);
    assert_eq!(two[0].msg_type, "text");
    assert_eq!(two[1].msg_type, "face");
    let three = two + at_all();
    assert_eq!(three.len(), 3);
    assert_eq!(three[2].data, pairs(&[("qq", "all")]));
    let four = reply(9) + three;
    assert_eq!(four.len(), 4);
    assert_eq!(four[0].msg_type, "reply");
    assert_eq!(four[1].msg_type, "text");
    let one: Vec<Message> = text("x").into();
    assert_eq!(one.len(), 1);
    assert_eq!(one[0].data, pairs(&[("text", "x")]));
}

#[test]
fn joining_borrowed_segments() {
    let a = text("a");
    let b = face(1);
    let v = vec![at_all(), poke(2)];
    let ab = &a + &b;
    assert_eq!(ab.len(), 2);
    assert_eq!(ab[0].data, pairs(&[("text", "a")]));
    assert_eq!(ab[1].data, pairs(&[("id", "1")]));
    let av = &a + &v;
    assert_eq!(av.len(), 3);
    assert_eq!(av[0].msg_type, "text");
    assert_eq!(av[2].msg_type, "poke");
    let va = &v + &a;
    assert_eq!(va.len(), 3);
    assert_eq!(va[2].msg_type, "text");
    assert_eq!((a.clone() + &b).len(), 2);
    assert_eq!((&a + b.clone()).len(), 2);
    assert_eq!((a.clone() + &v).len(), 3);
    assert_eq!((&a + v.clone()).len(), 3);
    assert_eq!((v.clone() + &a).len(), 3);
    assert_eq!((&v + a.clone()).len(), 3);
    // borrowed operands stay as they were
    assert_eq!(a.data, pairs(&[("text", "a")]));
    assert_eq!(v.len(), 2);
}

#[test]
fn grouping_does_not_matter() {
    let left = (text("a") + face(1)) + at_all();
    let right = text("a") + (face(1) + at_all());
    assert_eq!(left.len(), 3);
    assert_eq!(right.len(), 3);
    for i in 0..3 {
        assert_eq!(left[i].msg_type, right[i].msg_type);
        assert_eq!(left[i].data, right[i].data);
    }
}

#[test]
fn clone_keeps_segment() {
    let s = show("u", 7);
    let c = s.clone();
    assert_eq!(c.msg_type, s.msg_type);
    assert_eq!(c.data, s.data);
}
