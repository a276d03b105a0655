use filecopyer::layout::{destination_candidate, fill_date_template, join_path, render_date_template, PathStyle};
use filecopyer::types::MediaDateTime;

fn date(year: i32, month: u32, day: u32) -> MediaDateTime {
    MediaDateTime { year, month, day, hour: 12, minute: 0, second: 0 }
}

fn chars(s: &str) -> Vec<char> {
    s.chars().collect()
}

fn text(v: Vec<char>) -> String {
    v.into_iter().collect()
}

#[test]
fn default_template_gives_iso_day() {
    assert_eq!(render_date_template(PathStyle::Unix, "/pics", "{YYYY}-{MM}-{DD}", date(2024, 3, 5)), Ok(String::from("/pics/2024-03-05")));
}

#[test]
fn nested_template() {
    assert_eq!(render_date_template(PathStyle::Unix, "/pics/", "{YYYY}/{MM}/{DD}", date(2024, 11, 25)), Ok(String::from("/pics/2024/11/25")));
    assert_eq!(render_date_template(PathStyle::Unix, "", "{YYYY}/{DD}", date(7, 1, 9)), Ok(String::from("0007/09")));
    assert_eq!(render_date_template(PathStyle::Unix, "t", "Y{YYYY}{YYYY}", date(12345, 1, 1)), Ok(String::from("t/Y1234512345")));
    assert_eq!(render_date_template(PathStyle::Unix, "t", "a/./{MM}", date(2000, 10, 1)), Ok(String::from("t/a/./10")));
}

#[test]
fn negative_year_is_padded_after_sign() {
    assert_eq!(text(fill_date_template("{YYYY}", date(-5, 1, 1))), "-005");
    assert_eq!(text(fill_date_template("{YYYY}{MM}{DD}{mm}", date(1999, 12, 31))), "19991231{mm}");
}

#[test]
fn blank_template_refused() {
    assert_eq!(render_date_template(PathStyle::Unix, "/t", "", date(2024, 1, 1)), Err(String::from("模板渲染后为空")));
    assert_eq!(render_date_template(PathStyle::Unix, "/t", " \t ", date(2024, 1, 1)), Err(String::from("模板渲染后为空")));
}

#[test]
fn absolute_template_refused() {
    assert_eq!(
        render_date_template(PathStyle::Unix, "/t", "/{YYYY}", date(2024, 1, 1)),
        Err(String::from("模板不能是绝对路径: /2024"))
    );
}

#[test]
fn escaping_template_refused() {
    assert_eq!(
        render_date_template(PathStyle::Unix, "/t", "../{YYYY}", date(2024, 1, 1)),
        Err(String::from("模板包含非法路径片段: ../2024"))
    );
    assert_eq!(
        render_date_template(PathStyle::Unix, "/t", "{YYYY}/..", date(2024, 1, 1)),
        Err(String::from("模板包含非法路径片段: 2024/.."))
    );
    assert_eq!(
        render_date_template(PathStyle::Unix, "/t", "./{MM}", date(2024, 2, 1)),
        Err(String::from("模板包含非法路径片段: ./02"))
    );
    assert_eq!(render_date_template(PathStyle::Unix, "/t", ".", date(2024, 2, 1)), Err(String::from("模板包含非法路径片段: .")));
    assert!(render_date_template(PathStyle::Unix, "/t", "a..b/{MM}", date(2024, 2, 1)).is_ok());
    assert!(render_date_template(PathStyle::Unix, "/t", ".hidden/{MM}", date(2024, 2, 1)).is_ok());
}

#[test]
fn join_puts_one_separator() {
    assert_eq!(text(join_path(PathStyle::Unix, &chars("/a"), &chars("b"))), "/a/b");
    assert_eq!(text(join_path(PathStyle::Unix, &chars("/a/"), &chars("b"))), "/a/b");
    assert_eq!(text(join_path(PathStyle::Unix, &chars(""), &chars("b"))), "b");
}

#[test]
fn candidates_number_the_stem() {
    let d = chars("/t/2024-01-01");
    assert_eq!(text(destination_candidate(PathStyle::Unix, &d, &chars("IMG_1.JPG"), 0)), "/t/2024-01-01/IMG_1.JPG");
    assert_eq!(text(destination_candidate(PathStyle::Unix, &d, &chars("IMG_1.JPG"), 1)), "/t/2024-01-01/IMG_1_1.JPG");
    assert_eq!(text(destination_candidate(PathStyle::Unix, &d, &chars("a.tar.gz"), 12)), "/t/2024-01-01/a.tar_12.gz");
    assert_eq!(text(destination_candidate(PathStyle::Unix, &d, &chars("noext"), 9999)), "/t/2024-01-01/noext_9999");
    assert_eq!(text(destination_candidate(PathStyle::Unix, &d, &chars("dot."), 2)), "/t/2024-01-01/dot_2");
    assert_eq!(text(destination_candidate(PathStyle::Unix, &d, &chars(".hidden"), 3)), "/t/2024-01-01/.hidden_3");
}

#[test]
fn windows_templates_refused_like_std() {
    let w = PathStyle::Windows;
    assert_eq!(
        render_date_template(w, "D:\\pics", "..\\{YYYY}", date(2024, 1, 1)),
        Err(String::from("模板包含非法路径片段: ..\\2024"))
    );
    assert_eq!(
        render_date_template(w, "D:\\pics", "{YYYY}\\..", date(2024, 1, 1)),
        Err(String::from("模板包含非法路径片段: 2024\\.."))
    );
    assert_eq!(
        render_date_template(w, "D:\\pics", "C:\\{YYYY}", date(2024, 1, 1)),
        Err(String::from("模板不能是绝对路径: C:\\2024"))
    );
    assert_eq!(
        render_date_template(w, "D:\\pics", "c:{YYYY}", date(2024, 1, 1)),
        Err(String::from("模板包含非法路径片段: c:2024"))
    );
    assert_eq!(
        render_date_template(w, "D:\\pics", "\\{YYYY}", date(2024, 1, 1)),
        Err(String::from("模板包含非法路径片段: \\2024"))
    );
    assert_eq!(
        render_date_template(w, "D:\\pics", "\\\\srv\\share", date(2024, 1, 1)),
        Err(String::from("模板不能是绝对路径: \\\\srv\\share"))
    );
    assert_eq!(
        render_date_template(w, "D:\\pics", ".\\{MM}", date(2024, 2, 1)),
        Err(String::from("模板包含非法路径片段: .\\02"))
    );
}

#[test]
fn windows_templates_accepted_and_joined() {
    let w = PathStyle::Windows;
    assert_eq!(
        render_date_template(w, "D:\\pics", "{YYYY}\\{MM}/{DD}", date(2024, 3, 5)),
        Ok(String::from("D:\\pics\\2024\\03/05"))
    );
    assert_eq!(render_date_template(w, "D:\\pics\\", "{YYYY}", date(2024, 3, 5)), Ok(String::from("D:\\pics\\2024")));
    assert_eq!(render_date_template(w, "D:", "{YYYY}", date(2024, 3, 5)), Ok(String::from("D:2024")));
    assert_eq!(text(join_path(w, &chars("D:/x/"), &chars("a.jpg"))), "D:/x/a.jpg");
    // on Unix a backslash is part of a name
    assert_eq!(
        render_date_template(PathStyle::Unix, "/t", "..\\{YYYY}", date(2024, 1, 1)),
        Ok(String::from("/t/..\\2024"))
    );
}
