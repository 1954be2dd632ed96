use channel_subscriber::link::Link;
use channel_subscriber::tbits::Tbits;

fn tb(words: &[u8]) -> Tbits {
    Tbits { words: words.to_vec() }
}

#[test]
fn strings_are_the_same_word_by_word() {
    assert!(tb(&[]).same(&tb(&[])));
    assert!(tb(&[1, 2]).same(&tb(&[1, 2])));
    assert!(!tb(&[1, 2]).same(&tb(&[1, 3])));
    assert!(!tb(&[1, 2]).same(&tb(&[1])));
    assert!(!tb(&[1]).same(&tb(&[1, 2])));
}

#[test]
fn strings_are_joined_in_order() {
    assert_eq!(tb(&[1, 2]).concat(&tb(&[3])), tb(&[1, 2, 3]));
    assert_eq!(tb(&[]).concat(&tb(&[3])), tb(&[3]));
    assert_eq!(tb(&[3]).concat(&tb(&[])), tb(&[3]));
    assert_eq!(tb(&[1, 2]).duplicate(), tb(&[1, 2]));
}

#[test]
fn links_are_compared_by_both_parts() {
    let a = Link { base: tb(&[1]), rel: tb(&[2]) };
    let b = Link { base: tb(&[1]), rel: tb(&[3]) };
    let c = Link { base: tb(&[2]), rel: tb(&[2]) };
    assert!(a.same(&a.duplicate()));
    assert!(a.same_base(&b) && !a.same(&b));
    assert!(!a.same_base(&c) && !a.same(&c));
}
