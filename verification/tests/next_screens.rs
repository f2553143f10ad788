use verco::next::backend::LogEntry;
use verco::next::ui::{Draw, DrawOp, Drawer};

fn printed(drawer: &Drawer) -> Vec<String> {
    drawer
        .ops
        .iter()
        .filter_map(|op| match op {
            DrawOp::Print(s) => Some(s.clone()),
            _ => None,
        })
        .collect()
}

fn entry(refs: &str, message: &str) -> LogEntry {
    LogEntry {
        graph: String::from("*"),
        hash: String::from("abc"),
        date: String::from("2021-01-01"),
        author: String::from("A very long author name"),
        refs: refs.to_string(),
        message: message.to_string(),
    }
}

#[test]
fn log_entry_message_fits_the_width() {
    // graph 1 + hash 3 + date 10 + author 12, each with a space: 30 columns before the message
    let mut drawer = Drawer::new((36, 10));
    entry("", "a long commit message").draw(&mut drawer);
    let texts = printed(&drawer);
    assert_eq!(texts[6], "A very long ");
    assert_eq!(texts.last().unwrap(), "a long");

    // references take their length and three more columns
    let mut drawer = Drawer::new((40, 10));
    entry("HEAD", "message").draw(&mut drawer);
    let texts = printed(&drawer);
    assert_eq!(texts[8], "(");
    assert_eq!(texts[9], "HEAD");
    assert_eq!(texts[10], ") ");
    assert_eq!(texts.last().unwrap(), "mes");

    let mut drawer = Drawer::new((10, 10));
    entry("", "gone").draw(&mut drawer);
    assert_eq!(printed(&drawer).last().unwrap(), "");
}
