use gateway::practice::borrowing::{consume, store_refs, sum_lengths, Data};
use gateway::practice::library::{
    add_pages, add_pages_existing_book, borrow_book, make_library, take_ownership, Book,
};
use gateway::practice::lifetimes::{first_char, good_ref, longer, Person};
use gateway::practice::machines::{count_words, Light, Reader, ReaderState};
use gateway::practice::messages::{
    emphasize, is_all_upper, maybe_uppercase, msg_len, AsStr, Message,
};
use gateway::practice::stats::{
    first_word, increment_all, process, sum_borrowed, sum_owned, Stats,
};
use gateway::practice::wc_light::{get_filename, wc, UsageError};
use gateway::scan::{chars_of, count, is_space, same_text, trim, Counts};
use gateway::text::{append_i64, append_u64, render_i64, render_u64};
use std::borrow::Cow;

#[test]
fn the_longer_text_wins() {
    assert_eq!(longer("kurz", "länger"), "länger");
    assert_eq!(longer("länger", "kurz"), "länger");
    assert_eq!(longer("same", "size"), "size");
    assert_eq!(longer("", ""), "");
}

#[test]
fn first_char_of_a_name() {
    let p = Person { name: "Peter" };
    assert_eq!(first_char(&p), "P");
    assert_eq!(first_char(&Person { name: "Zoë" }), "Z");
    assert_eq!(first_char(&Person { name: "x" }), "x");
}

#[test]
fn good_ref_is_owned() {
    assert_eq!(good_ref(), "hi");
}

#[test]
fn lengths_are_summed() {
    assert_eq!(sum_lengths(&"abc".to_string(), &"zz".to_string()), 5);
    assert_eq!(sum_lengths("", ""), 0);
    assert_eq!(sum_lengths("ä", "€"), 5);
}

#[test]
fn data_is_consumed() {
    assert_eq!(consume(Data::Number(-10)), 10);
    assert_eq!(consume(Data::Number(10)), 10);
    assert_eq!(consume(Data::Number(0)), 0);
    assert_eq!(consume(Data::Number(i32::MAX)), i32::MAX as usize);
    assert_eq!(consume(Data::Text("abc".to_string())), 3);
    assert_eq!(consume(Data::Text("ä".to_string())), 2);
    assert_eq!(store_refs("a", "b"), ("a", "b"));
}

#[test]
fn books_are_lent_and_given() {
    let b = Book { title: "Rust".to_string(), pages: 500 };
    assert_eq!(borrow_book(&b), 500);
    assert_eq!(b.title, "Rust");
    assert_eq!(take_ownership(b), 500);

    let b1 = Book { title: "A".into(), pages: 10 };
    let b2 = Book { title: "B".into(), pages: 20 };
    let lib = make_library(&b1, &b2);
    assert_eq!(lib.book1.pages, 10);
    assert_eq!(lib.book2.title, "B");

    let mut b3 = Book { title: "Test".into(), pages: 100 };
    add_pages_existing_book(&mut b3, 50);
    assert_eq!(b3.pages, 150);
    let b4 = add_pages(b3, 50);
    assert_eq!(b4.pages, 200);
    assert_eq!(b4.title, "Test");
}

#[test]
fn messages_have_lengths() {
    assert_eq!(msg_len(&Message::Borrowed("abc")), 3);
    assert_eq!(msg_len(&Message::Owned("abcde".to_string())), 5);
    assert_eq!(msg_len(&Message::Owned("ä".to_string())), 2);
    let h = emphasize("Hello");
    assert_eq!(h.text, "Hello");
    assert_eq!(h.level, 1);
}

#[test]
fn text_is_copied_only_to_change_it() {
    assert!(matches!(maybe_uppercase("HELLO"), Cow::Borrowed(_)));
    assert!(matches!(maybe_uppercase("Hello"), Cow::Owned(_)));
    assert_eq!(maybe_uppercase("Hello"), "HELLO");
    assert_eq!(maybe_uppercase("HELLO"), "HELLO");
    assert_eq!(maybe_uppercase("straße"), "STRASSE");
    assert!(matches!(maybe_uppercase(""), Cow::Borrowed(_)));
    assert!(matches!(maybe_uppercase("HELLO WORLD"), Cow::Owned(_)));
    assert!(is_all_upper("ÄÖÜ"));
    assert!(!is_all_upper("A1"));
}

#[test]
fn many_things_are_texts() {
    assert_eq!(AsStr::as_str(&"hello"), "hello");
    assert_eq!(AsStr::as_str(&"test".to_string()), "test");
    assert_eq!(AsStr::as_str(&maybe_uppercase("Hello")), "HELLO");
    assert_eq!(AsStr::as_str(&maybe_uppercase("HELLO")), "HELLO");
}

#[test]
fn numbers_are_summed_and_changed() {
    let mut v = vec![1, 2, 3];
    assert_eq!(sum_borrowed(&v), 6);
    increment_all(&mut v);
    assert_eq!(v, vec![2, 3, 4]);
    assert_eq!(sum_owned(v), 9);
    assert_eq!(sum_owned(Vec::new()), 0);
    assert_eq!(sum_borrowed(&vec![i32::MAX, -1, -i32::MAX]), -1);
}

#[test]
fn first_word_ends_at_the_first_space() {
    assert_eq!(first_word("hello world rustacean"), "hello");
    assert_eq!(first_word("hello"), "hello");
    assert_eq!(first_word(" hello"), "");
    assert_eq!(first_word(""), "");
    assert_eq!(first_word("grüße dich"), "grüße");
    assert_eq!(first_word("tab\tis no space"), "tab\tis");
}

#[test]
fn halves_are_processed() {
    let mut values = [1, 2, 3, 4, 5, 6];
    process(&mut values);
    assert_eq!(values, [2, 3, 4, 8, 10, 12]);
    let mut odd = [1, 2, 3];
    process(&mut odd);
    assert_eq!(odd, [2, 4, 6]);
    let mut one = [7];
    process(&mut one);
    assert_eq!(one, [14]);
    let mut none: [i32; 0] = [];
    process(&mut none);
}

#[test]
fn stats_collect_scale_and_sort() {
    let mut stats = Stats::new();
    assert_eq!(stats.sum(), 0);
    for value in [3, -1, 2, 3] {
        stats.add(value);
    }
    assert_eq!(stats.values, vec![3, -1, 2, 3]);
    assert_eq!(stats.sum(), 7);
    stats.scale(-2);
    assert_eq!(stats.values, vec![-6, 2, -4, -6]);
    assert_eq!(stats.into_sorted(), vec![-6, -6, -4, 2]);
    assert_eq!(Stats::new().into_sorted(), Vec::<i32>::new());
}

#[test]
fn lights_cycle() {
    let mut state = Light::Red;
    let mut seen = Vec::new();
    for _ in 0..4 {
        state = state.next();
        seen.push(state);
    }
    assert_eq!(seen, vec![Light::Green, Light::Yellow, Light::Red, Light::Green]);
}

#[test]
fn words_are_counted() {
    assert_eq!(count_words("  this is a word"), 4);
    assert_eq!(count_words(""), 0);
    assert_eq!(count_words("   "), 0);
    assert_eq!(count_words("one"), 1);
    assert_eq!(count_words("a\tb\nc\u{2003}d "), 4);
    for text in ["x  y", " lead", "trail ", "naïve café", "a\u{85}b"] {
        assert_eq!(count_words(text), text.split_whitespace().count());
    }
}

#[test]
fn reader_reads_while_open() {
    let mut reader = Reader { state: ReaderState::Closed };
    assert_eq!(reader.read_char("hello"), None);
    reader.open();
    assert_eq!(reader.state, ReaderState::Open(0));
    let mut read = String::new();
    while let Some(c) = reader.read_char("hello") {
        read.push(c);
    }
    assert_eq!(read, "hello");
    assert_eq!(reader.state, ReaderState::Open(5));
    assert_eq!(reader.read_char("hello"), None);
    reader.open();
    assert_eq!(reader.state, ReaderState::Error("already open".to_string()));
    assert_eq!(reader.read_char("hello"), None);
    reader.open();
    assert_eq!(reader.state, ReaderState::Error("already open".to_string()));
    reader.close();
    assert_eq!(reader.state, ReaderState::Closed);
    reader.open();
    assert_eq!(reader.read_char(""), None);
    assert_eq!(reader.state, ReaderState::Open(0));
}

#[test]
fn wc_light_needs_one_file_name() {
    let args = |list: &[&str]| list.iter().map(|s| s.to_string()).collect::<Vec<_>>();
    assert_eq!(get_filename(&args(&["wc-light", "input.txt"])), Ok("input.txt".to_string()));
    assert_eq!(get_filename(&args(&["wc-light"])), Err(UsageError));
    assert_eq!(get_filename(&args(&["wc-light", "a", "b"])), Err(UsageError));
    assert_eq!(get_filename(&args(&[])), Err(UsageError));
    assert_eq!(UsageError.message(), "Usage: wc-light <filename>");
}

#[test]
fn wc_light_reports_three_counts() {
    assert_eq!(wc("Hello world\nLine 2"), vec!["Lines: 2", "Words: 4", "Chars: 18"]);
    assert_eq!(wc(""), vec!["Lines: 0", "Words: 0", "Chars: 0"]);
    assert_eq!(wc("ä\n"), vec!["Lines: 1", "Words: 1", "Chars: 2"]);
}

#[test]
fn white_space_is_what_the_standard_library_says() {
    for code in 0..=0x11_0000u32 {
        if let Some(c) = char::from_u32(code) {
            assert_eq!(is_space(c), c.is_whitespace(), "U+{code:04X}");
        }
    }
}

#[test]
fn trim_agrees_with_the_standard_library() {
    for text in [
        "", " ", "a", " a", "a ", "  a b  ", "\t\n x \r\n", "\u{a0}ä\u{3000}", "no space",
        " \u{200b} ", "\u{2028}line\u{2029}",
    ] {
        assert_eq!(trim(text), text.trim(), "trimming {text:?}");
    }
}

#[test]
fn texts_are_scanned() {
    assert_eq!(chars_of("aä€"), vec!['a', 'ä', '€']);
    assert!(chars_of("").is_empty());
    assert!(same_text("abc", "abc"));
    assert!(!same_text("abc", "abd"));
    assert!(!same_text("abc", "ab"));
    assert!(same_text("", ""));
    assert_eq!(count("a b\n"), Counts { lines: 1, words: 2, chars: 4 });
    assert_eq!(count("a\n\nb"), Counts { lines: 3, words: 2, chars: 4 });
}

#[test]
fn numbers_are_written_in_decimal() {
    assert_eq!(render_u64(0), "0");
    assert_eq!(render_u64(7), "7");
    assert_eq!(render_u64(10), "10");
    assert_eq!(render_u64(1234567890), "1234567890");
    assert_eq!(render_u64(u64::MAX), "18446744073709551615");
    assert_eq!(render_i64(0), "0");
    assert_eq!(render_i64(-1), "-1");
    assert_eq!(render_i64(i64::MIN), "-9223372036854775808");
    assert_eq!(render_i64(i64::MAX), "9223372036854775807");
    for n in [0u64, 9, 10, 99, 100, 101, 4294967295, 4294967296] {
        assert_eq!(render_u64(n), n.to_string());
    }
    let mut s = String::from("n=");
    append_u64(&mut s, 42);
    append_i64(&mut s, -42);
    assert_eq!(s, "n=42-42");
}
