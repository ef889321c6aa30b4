//! The character stream: peeking, advancing, and transactional lookahead.

use naklang::CharStream;
use naklang::InputStream;

#[test]
fn charstream() {
    let str = "Hello World!".to_owned();
    let mut cs = CharStream::new(str);
    assert!(cs.next().unwrap() == 'H');
    assert!(cs.peek().unwrap() == 'e');
    let mut rest = None;
    cs.optional_next(|mut x| {
        rest = x.next();
        while x.next().is_some() {}
        (x, false)
    });
    assert!(cs.next().unwrap() == 'e');
    assert!(cs.next().unwrap() == 'l');
}

#[test]
fn optional_next_keeps_a_committed_advance() {
    let mut cs = CharStream::new("abc".to_owned());
    cs.optional_next(|mut x| {
        x.next();
        x.next();
        (x, true)
    });
    assert_eq!(cs.next(), Some('c'));
    assert_eq!(cs.next(), None);
}

#[test]
fn peek_does_not_advance() {
    let mut cs = CharStream::new("ab".to_owned());
    assert_eq!(cs.peek(), Some('a'));
    assert_eq!(cs.peek(), Some('a'));
    assert_eq!(cs.next(), Some('a'));
    assert_eq!(cs.next(), Some('b'));
    assert_eq!(cs.peek(), None);
    assert_eq!(cs.next(), None);
}
