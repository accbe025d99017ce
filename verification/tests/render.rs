use heckit::numeral::usize_to_decimal;
use heckit::page::App;
use heckit::page::Project;
use heckit::page::Root;
use heckit::page::Title;
use heckit::page::render_page;
use heckit::response::build_page_response;
use heckit::response::build_response;

fn sample_projects() -> Vec<Project> {
    vec![
        Project {
            title: String::from("flicke"),
            desc: String::from("Initially intended to be a flickery fire ray march sketch"),
            href: String::from("https://flicke.now.sh/"),
            img: Some(String::from("https://assets.merveilles.town/media_attachments/files/000/519/799/original/89011a1732a64908.png")),
        },
        Project {
            title: String::from("infuse"),
            desc: String::from("Minamalist wasm based webgl renderer"),
            href: String::from("https://github.com/shockham/infuse"),
            img: None,
        },
    ]
}

#[test]
fn decimal_zero() {
    assert_eq!(usize_to_decimal(0), "0");
}

#[test]
fn decimal_single_digit() {
    assert_eq!(usize_to_decimal(7), "7");
}

#[test]
fn decimal_round_number() {
    assert_eq!(usize_to_decimal(1000), "1000");
}

#[test]
fn decimal_general() {
    assert_eq!(usize_to_decimal(52067), "52067");
}

#[test]
fn decimal_largest() {
    assert_eq!(usize_to_decimal(usize::MAX), format!("{}", usize::MAX));
}

#[test]
fn project_card_with_image() {
    let p = Project {
        title: String::from("weive"),
        desc: String::from("Rounded cube ray march sketch"),
        href: String::from("https://weive.shockham.now.sh/"),
        img: Some(String::from("https://example.org/shot.png")),
    };
    let expected = format!(
        "<a class=\"project\" href=\"{href}\" target=\"_blank\">
                <h2>{title}</h2>
                <p>{desc}</p>
                {img}
            </a>",
        title = "weive",
        desc = "Rounded cube ray march sketch",
        href = "https://weive.shockham.now.sh/",
        img = "<img src=\"https://example.org/shot.png\" alt=\"_\">",
    );
    assert_eq!(p.to_html(), expected);
}

#[test]
fn project_card_without_image() {
    let p = Project {
        title: String::from("caper"),
        desc: String::from("Minamalist game framework"),
        href: String::from("https://github.com/shockham/caper"),
        img: None,
    };
    let expected = format!(
        "<a class=\"project\" href=\"{href}\" target=\"_blank\">
                <h2>{title}</h2>
                <p>{desc}</p>
                {img}
            </a>",
        title = "caper",
        desc = "Minamalist game framework",
        href = "https://github.com/shockham/caper",
        img = "",
    );
    assert_eq!(p.to_html(), expected);
}

#[test]
fn app_wraps_cards_in_grid() {
    let app = App { projects_html: String::from("<a>x</a>") };
    assert_eq!(app.to_html(), "<div class=\"app\"><a>x</a></div>");
}

#[test]
fn root_document_skeleton() {
    let root = Root {
        title_html: String::from("TITLE"),
        body_html: String::from("BODY"),
    };
    let all_style = format!(
        "{}{}{}{}",
        Root::style(),
        Title::style(),
        App::style(),
        Project::style(),
    );
    let expected = format!(
        "<!DOCTYPE html>
            <html>
            <head>
                <title>shockham</title>
                <style>
                    {style}
                </style>
            </head>
            <body>
                <h1>
                    {title}
                </h1>
                {body}
            </body>
            </html>\r\n",
        style = all_style,
        title = "TITLE",
        body = "BODY",
    );
    assert_eq!(root.to_html(), expected);
}

#[test]
fn page_assembles_components() {
    let projects = sample_projects();
    let page = render_page(&projects);
    assert!(page.starts_with("<!DOCTYPE html>"));
    assert!(page.ends_with("</html>\r\n"));
    let cards: String = projects.iter().map(|p| p.to_html()).collect();
    let body = App { projects_html: cards }.to_html();
    assert!(page.contains(&body));
    assert!(page.contains("<title>shockham</title>"));
}

#[test]
fn response_framing_exact() {
    let r = build_response(&String::from("hello"));
    assert_eq!(
        r,
        "HTTP/1.1 200 OK\nContent-Type: text/html; charset=UTF-8\nContent-Length: 5\n\nhello"
    );
}

#[test]
fn response_empty_body() {
    let r = build_response(&String::from(""));
    assert_eq!(
        r,
        "HTTP/1.1 200 OK\nContent-Type: text/html; charset=UTF-8\nContent-Length: 0\n\n"
    );
}

#[test]
fn content_length_counts_bytes_not_chars() {
    // "é" is one character but two UTF-8 bytes.
    let r = build_response(&String::from("é"));
    assert_eq!(
        r,
        "HTTP/1.1 200 OK\nContent-Type: text/html; charset=UTF-8\nContent-Length: 2\n\né"
    );
}

#[test]
fn content_length_matches_body() {
    let projects = sample_projects();
    let body = render_page(&projects);
    let response = build_response(&body);
    let header_end = response.find("\n\n").unwrap();
    let head = &response[..header_end];
    let served_body = &response[header_end + 2..];
    assert_eq!(served_body, body);
    let len_line = head
        .lines()
        .find(|l| l.starts_with("Content-Length: "))
        .unwrap();
    let n: usize = len_line["Content-Length: ".len()..].parse().unwrap();
    assert_eq!(n, body.len());
}

#[test]
fn builder_is_idempotent() {
    let first = build_page_response(&sample_projects());
    let second = build_page_response(&sample_projects());
    assert_eq!(first, second);
    let third = build_page_response(&sample_projects());
    assert_eq!(first, third);
}
