use fofo::content::ContentType;
use fofo::list_codec::{array_to_string, string_to_array, SPLIT_CHAR};

fn first(s: &str) -> Option<String> {
    ContentType::Markdown.get_first_image_url(s)
}

#[test]
fn first_image_url() {
    assert_eq!(first("text ![alt](http://a/b.png) more"), Some("http://a/b.png".to_string()));
    assert_eq!(first("no image here"), None);
    assert_eq!(first("![a](x) ![b](y)"), Some("x".to_string()));
    assert_eq!(first("[x](y) ![z](w)"), Some("w".to_string()));
    assert_eq!(first("![a](b)c)"), Some("b".to_string()));
    assert_eq!(first("![a]](b)"), Some("b".to_string()));
    assert_eq!(first("![](u)"), Some("u".to_string()));
    assert_eq!(first("![a]()"), Some("".to_string()));
    assert_eq!(first("![a](x\n)"), None);
    assert_eq!(first("![a\nb](x)"), None);
    assert_eq!(first("![a](x\n) ![c](d)"), Some("d".to_string()));
    assert_eq!(first("![\u{e9}](\u{fc}rl)"), Some("\u{fc}rl".to_string()));
    assert_eq!(first(""), None);
}

#[test]
fn join_items() {
    assert_eq!(SPLIT_CHAR, "~./*\\.~");
    let v = vec!["a".to_string(), "b".to_string()];
    assert_eq!(array_to_string(&v), "a~./*\\.~b");
    assert_eq!(array_to_string(&[]), "");
    assert_eq!(array_to_string(&["x".to_string()]), "x");
}

#[test]
fn split_items() {
    assert_eq!(string_to_array("a~./*\\.~b"), vec!["a".to_string(), "b".to_string()]);
    assert_eq!(string_to_array(""), Vec::<String>::new());
    assert_eq!(string_to_array("abc"), vec!["abc".to_string()]);
    assert_eq!(string_to_array("~./*\\.~"), vec!["".to_string(), "".to_string()]);
    assert_eq!(
        string_to_array("~./*\\.~./*\\.~"),
        vec!["".to_string(), "./*\\.~".to_string()]
    );
}

#[test]
fn tags_round_trip() {
    let tags = vec!["rust".to_string(), "verus".to_string(), "async io".to_string()];
    assert_eq!(string_to_array(&array_to_string(&tags)), tags);
}
