use memcards::import::import_anki_text;

fn lookup<'a>(cards: &'a [(String, String)], front: &str) -> Option<&'a str> {
    cards.iter().find(|p| p.0 == front).map(|p| p.1.as_str())
}

#[test]
fn test_importer() {
    let sample = r#"#separator:tab
#html:false
.	Come on!	[Cc]ome +on[ \!]?		嚟 啦 。	嚟 啦 。	le̖i lā.	lei4 laa1.	leih4 la1.	lei4 laa1.	((嚟|[o口]黎|來)|[Ll]ei4?|[Ll]eih4?)\W*(啦|[Ll]aa1?|[Ll]a1?)\W*			come !	lei4 laa1. / leih4 la1.	le̖ʲ lāː 	1
.	He dances.	[Hh]e +dances[ \.]?		佢 跳舞 。	佢 跳舞 。	kö̗ü tiu̟ mo̗u.	keoi5 tiu3 mou5.	keuih5 tiu3 mouh5.	keoi5 tiu3 mou5.	((佢|人巨|他)|[Kk]eoi5?|[Kk]euih5?)\W*(跳|[Tt]iu3?)\W*(舞|[Mm]ou5?|[Mm]ouh5?)\W*			s/he dance	keoi5 tiu3 mou5. / keuih5 tiu3 mouh5.	kʰø̗ᶣ tʰi̟ːʷ mo̗ʷ 	2"#;

    let cards = import_anki_text(1, 7, sample.to_string());
    assert_eq!(cards.len(), 2);
    assert_eq!(lookup(&cards, "Come on!").unwrap(), "lei4 laa1.");
    assert_eq!(lookup(&cards, "He dances.").unwrap(), "keoi5 tiu3 mou5.");
}

#[test]
fn import_comma_separator_directive() {
    let sample = "#separator:comma\nfront a,back a\nfront b,back b";
    let cards = import_anki_text(0, 1, sample.to_string());
    assert_eq!(cards.len(), 2);
    assert_eq!(lookup(&cards, "front a").unwrap(), "back a");
    assert_eq!(lookup(&cards, "front b").unwrap(), "back b");
}

#[test]
fn import_quoted_separator_directive() {
    let sample = "#separator:';'\na;b";
    let cards = import_anki_text(0, 1, sample.to_string());
    assert_eq!(cards.len(), 1);
    assert_eq!(lookup(&cards, "a").unwrap(), "b");
}

#[test]
fn import_skips_blank_and_comment_lines() {
    let sample = "#html:true\n\n   \na\tb\n";
    let cards = import_anki_text(0, 1, sample.to_string());
    assert_eq!(cards.len(), 1);
    assert_eq!(lookup(&cards, "a").unwrap(), "b");
}

#[test]
fn import_later_duplicate_front_replaces_earlier() {
    let sample = "x\tfirst\nx\tsecond";
    let cards = import_anki_text(0, 1, sample.to_string());
    assert_eq!(cards.len(), 1);
    assert_eq!(lookup(&cards, "x").unwrap(), "second");
}

#[test]
fn import_line_without_both_fields_is_skipped() {
    let sample = "only-front\na\tb";
    let cards = import_anki_text(0, 1, sample.to_string());
    assert_eq!(cards.len(), 1);
    assert_eq!(lookup(&cards, "a").unwrap(), "b");
}

#[test]
fn import_trims_fields() {
    let sample = "  a  \t  b  ";
    let cards = import_anki_text(0, 1, sample.to_string());
    assert_eq!(cards.len(), 1);
    assert_eq!(lookup(&cards, "a").unwrap(), "b");
}

#[test]
fn import_empty_file_yields_nothing() {
    let cards = import_anki_text(0, 1, String::new());
    assert!(cards.is_empty());
}
