use oservers::listing::{directory_page, render_listing, sort_entries, ListingEntry};
use oservers::text::format_size;

fn entry(name: &str, is_dir: bool, size: u64) -> ListingEntry {
    ListingEntry { name: name.to_string(), is_dir, size, modified: "2024-05-01 10:30".to_string() }
}

fn expected_page(request_path: &str, entries: &[(&str, bool, u64)]) -> String {
    let mut html = format!(
        r#"<!DOCTYPE html>
<html>
<head>
    <meta charset="utf-8">
    <title>Index of {}</title>
    <style>
        body {{ font-family: -apple-system, BlinkMacSystemFont, "Segoe UI", Roboto, sans-serif; margin: 20px; background: #f5f5f5; }}
        h1 {{ color: #333; border-bottom: 2px solid #4CAF50; padding-bottom: 10px; }}
        table {{ border-collapse: collapse; width: 100%; background: white; box-shadow: 0 1px 3px rgba(0,0,0,0.1); }}
        th, td {{ padding: 12px 15px; text-align: left; border-bottom: 1px solid #ddd; }}
        th {{ background: #4CAF50; color: white; }}
        tr:hover {{ background: #f1f1f1; }}
        a {{ color: #1976D2; text-decoration: none; }}
        a:hover {{ text-decoration: underline; }}
        .icon {{ margin-right: 8px; }}
        .size {{ color: #666; }}
        .date {{ color: #888; }}
    </style>
</head>
<body>
    <h1>📁 Index of {}</h1>
    <table>
        <tr><th>Name</th><th>Size</th><th>Modified</th></tr>
"#,
        request_path, request_path
    );
    if request_path != "/" {
        html.push_str(r#"        <tr><td><span class="icon">📂</span><a href="../">..</a></td><td>-</td><td>-</td></tr>
"#);
    }
    for (name, is_dir, size) in entries {
        let (icon, href, size_str) = if *is_dir {
            ("\u{1F4C2}", format!("{}/", name), "-".to_string())
        } else {
            ("\u{1F4C4}", name.to_string(), format_size(*size))
        };
        html.push_str(&format!(
            r#"        <tr><td><span class="icon">{}</span><a href="{}">{}</a></td><td class="size">{}</td><td class="date">{}</td></tr>
"#,
            icon, href, name, size_str, "2024-05-01 10:30"
        ));
    }
    html.push_str(r#"    </table>
    <p style="color:#888;margin-top:20px;font-size:12px;">OServers HTTP Server</p>
</body>
</html>"#);
    html
}

#[test]
fn listing_order_dirs_first_then_names() {
    let sorted = sort_entries(vec![
        entry("b.txt", false, 1),
        entry("zeta", true, 0),
        entry("A.txt", false, 1),
        entry("alpha", true, 0),
        entry("a.txt", false, 1),
    ]);
    let names: Vec<&str> = sorted.iter().map(|e| e.name.as_str()).collect();
    assert_eq!(names, vec!["alpha", "zeta", "A.txt", "a.txt", "b.txt"]);
}

#[test]
fn listing_page_below_root() {
    let page = directory_page("/docs/", vec![entry("notes.txt", false, 1536), entry("img", true, 4096)]);
    assert_eq!(page, expected_page("/docs/", &[("img", true, 0), ("notes.txt", false, 1536)]));
    assert!(page.contains("<a href=\"../\">..</a>"));
    assert!(page.contains("1.50 KB"));
}

#[test]
fn listing_page_at_root_has_no_parent_link() {
    let page = render_listing("/", &vec![entry("x", false, 10)]);
    assert_eq!(page, expected_page("/", &[("x", false, 10)]));
    assert!(!page.contains("href=\"../\""));
}

#[test]
fn listing_page_empty_directory() {
    let page = directory_page("/empty/", Vec::new());
    assert_eq!(page, expected_page("/empty/", &[]));
}
