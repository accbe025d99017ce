//! Portfolio page rendering.
//!
//! Each component renders a fixed piece of CSS and a piece of HTML. The
//! contracts pin every byte of the output: each executable renderer returns
//! exactly the character sequence given by the matching `_text` spec function,
//! so the page is a pure function of the project list.

use vstd::prelude::*;
use vstd::string::StringExecFns;

verus! {

/// CSS of the title component.
pub open spec fn title_style_text() -> Seq<char> {
    "
            svg {
                height: 90px;
                display: inline-block;
            }

            div {
                float: right;
            }

            .links a {
                color: #fff;
                transition: all 0.5s ease 0s;
            }

            .links a:hover {
                color: #eee;
                opacity: 0.7;
            }
        "@
}

/// HTML of the title component: the site logo and the outbound links.
pub open spec fn title_html_text() -> Seq<char> {
    "
            <svg
              xmlns=\"http://www.w3.org/2000/svg\"
              preserveAspectRatio=\"xMidYMin meet\" viewBox=\"0 0 68 90\"
            >
              <g
                transform=\"translate(-68.297193,-19.514977)\"
              >
                <path
                  style=\"fill:#ffffff;fill-opacity:1;stroke:none;stroke-width:0.26458332px;stroke-linecap:butt;stroke-linejoin:miter;stroke-opacity:1\"
                  d=\"M 81.52636,108.52836 V 84.337891 l -13.229167,-16.252975 2.83482,-20.221729 22.300596,-14.174104 6.425594,2.456844 0.188977,9.827381 -11.906237,12.284226 13.229157,12.473215 -0.11071,25.713844 3.07176,0.05011 0.28955,-25.485234 12.96257,-12.962573 -12.16076,-12.428032 0.13364,-7.216277 27.66239,9.621702 3.0736,21.782466 -9.75534,12.294399 0.26727,26.326046 z\"
                />
                <path
                  style=\"fill:#ffffff;fill-opacity:1;fill-rule:evenodd;stroke:none;stroke-width:0.26499999;stroke-linecap:butt;stroke-linejoin:miter;stroke-miterlimit:4;stroke-dasharray:none;stroke-opacity:1\"
                  d=\"m 103.82727,56.710551 -0.0438,-4.953431 4.36042,4.979675 z m -6.422818,-3e-6 h 4.810848 v -4.944485 z m -4.81085,1.469983 10.156238,-10.289879 10.0226,10.022607 -9.6217,10.156243 z\"
                />
                <path
                  style=\"fill:#ffffff;fill-opacity:1;stroke:none;stroke-width:0.26499999;stroke-linecap:butt;stroke-linejoin:miter;stroke-miterlimit:4;stroke-dasharray:none;stroke-opacity:1\"
                  d=\"m 74.550502,19.536919 -3.2295,24.82999 20.977677,-13.607142 40.537941,13.796129 -3.38998,-25.029109 -10.83137,-0.01181 -0.14175,14.174106 -2.25116,-0.0057 1e-5,-14.110157 -12.35055,-0.01958 -0.0449,9.03278 h -2.26786 l -0.0725,-9.03802 -14.084847,-0.02244 -0.07576,9.473867 -2.114303,-0.03543 v -9.449404 z\"
                />
              </g>
            </svg>
            <div class=\"links\">
              <a href=\"https://twitter.com/shockham\" target=\"_blank\">tw</a>
              <a href=\"https://github.com/shockham\" target=\"_blank\">gh</a>
              <a href=\"https://shockham.bandcamp.com/\" target=\"_blank\">bc</a>
              <a rel=\"me\" href=\"https://merveilles.town/@shockham\" target=\"_blank\">
                  fedi
              </a>
            </div>
        "@
}

/// The site header.
pub struct Title {}

impl Title {
    pub fn style() -> (r: String)
        ensures
            r@ == title_style_text(),
    {
        String::from_str(
            "
            svg {
                height: 90px;
                display: inline-block;
            }

            div {
                float: right;
            }

            .links a {
                color: #fff;
                transition: all 0.5s ease 0s;
            }

            .links a:hover {
                color: #eee;
                opacity: 0.7;
            }
        ",
        )
    }

    pub fn to_html(&self) -> (r: String)
        ensures
            r@ == title_html_text(),
    {
        String::from_str(
            "
            <svg
              xmlns=\"http://www.w3.org/2000/svg\"
              preserveAspectRatio=\"xMidYMin meet\" viewBox=\"0 0 68 90\"
            >
              <g
                transform=\"translate(-68.297193,-19.514977)\"
              >
                <path
                  style=\"fill:#ffffff;fill-opacity:1;stroke:none;stroke-width:0.26458332px;stroke-linecap:butt;stroke-linejoin:miter;stroke-opacity:1\"
                  d=\"M 81.52636,108.52836 V 84.337891 l -13.229167,-16.252975 2.83482,-20.221729 22.300596,-14.174104 6.425594,2.456844 0.188977,9.827381 -11.906237,12.284226 13.229157,12.473215 -0.11071,25.713844 3.07176,0.05011 0.28955,-25.485234 12.96257,-12.962573 -12.16076,-12.428032 0.13364,-7.216277 27.66239,9.621702 3.0736,21.782466 -9.75534,12.294399 0.26727,26.326046 z\"
                />
                <path
                  style=\"fill:#ffffff;fill-opacity:1;fill-rule:evenodd;stroke:none;stroke-width:0.26499999;stroke-linecap:butt;stroke-linejoin:miter;stroke-miterlimit:4;stroke-dasharray:none;stroke-opacity:1\"
                  d=\"m 103.82727,56.710551 -0.0438,-4.953431 4.36042,4.979675 z m -6.422818,-3e-6 h 4.810848 v -4.944485 z m -4.81085,1.469983 10.156238,-10.289879 10.0226,10.022607 -9.6217,10.156243 z\"
                />
                <path
                  style=\"fill:#ffffff;fill-opacity:1;stroke:none;stroke-width:0.26499999;stroke-linecap:butt;stroke-linejoin:miter;stroke-miterlimit:4;stroke-dasharray:none;stroke-opacity:1\"
                  d=\"m 74.550502,19.536919 -3.2295,24.82999 20.977677,-13.607142 40.537941,13.796129 -3.38998,-25.029109 -10.83137,-0.01181 -0.14175,14.174106 -2.25116,-0.0057 1e-5,-14.110157 -12.35055,-0.01958 -0.0449,9.03278 h -2.26786 l -0.0725,-9.03802 -14.084847,-0.02244 -0.07576,9.473867 -2.114303,-0.03543 v -9.449404 z\"
                />
              </g>
            </svg>
            <div class=\"links\">
              <a href=\"https://twitter.com/shockham\" target=\"_blank\">tw</a>
              <a href=\"https://github.com/shockham\" target=\"_blank\">gh</a>
              <a href=\"https://shockham.bandcamp.com/\" target=\"_blank\">bc</a>
              <a rel=\"me\" href=\"https://merveilles.town/@shockham\" target=\"_blank\">
                  fedi
              </a>
            </div>
        ",
        )
    }
}

/// CSS of a project card.
pub open spec fn project_style_text() -> Seq<char> {
    "
            .project {
                background: #fff;
                color: #111;
                padding: 0 10px;
                transition: all 0.5s ease 0s;
                cursor: pointer;
                text-decoration: none;
            }
            .project:hover {
                opacity: 0.7;
            }
            .project img {
                width: 100%;
            }
        "@
}

/// The image tag of a project card, or nothing when the project has no image.
pub open spec fn img_html_text(img: Option<Seq<char>>) -> Seq<char> {
    match img {
        Some(url) => "<img src=\""@ + url + "\" alt=\"_\">"@,
        None => Seq::<char>::empty(),
    }
}

/// One portfolio entry.
pub struct Project {
    pub title: String,
    pub desc: String,
    pub href: String,
    pub img: Option<String>,
}

impl Project {
    /// The image URL as a character sequence, when there is one.
    pub open spec fn img_text(&self) -> Option<Seq<char>> {
        match self.img {
            Some(url) => Some(url@),
            None => None,
        }
    }

    /// The card HTML of this project.
    pub open spec fn html_text(&self) -> Seq<char> {
        "<a class=\"project\" href=\""@ + self.href@
            + "\" target=\"_blank\">\n                <h2>"@ + self.title@
            + "</h2>\n                <p>"@ + self.desc@ + "</p>\n                "@
            + img_html_text(self.img_text()) + "\n            </a>"@
    }

    pub fn style() -> (r: String)
        ensures
            r@ == project_style_text(),
    {
        String::from_str(
            "
            .project {
                background: #fff;
                color: #111;
                padding: 0 10px;
                transition: all 0.5s ease 0s;
                cursor: pointer;
                text-decoration: none;
            }
            .project:hover {
                opacity: 0.7;
            }
            .project img {
                width: 100%;
            }
        ",
        )
    }

    pub fn to_html(&self) -> (r: String)
        ensures
            r@ == self.html_text(),
    {
        let mut r = String::from_str("<a class=\"project\" href=\"");
        r.append(self.href.as_str());
        r.append("\" target=\"_blank\">\n                <h2>");
        r.append(self.title.as_str());
        r.append("</h2>\n                <p>");
        r.append(self.desc.as_str());
        r.append("</p>\n                ");
        match &self.img {
            Some(url) => {
                r.append("<img src=\"");
                r.append(url.as_str());
                r.append("\" alt=\"_\">");
            },
            None => {},
        }
        r.append("\n            </a>");
        proof {
            assert(r@ =~= self.html_text());
        }
        r
    }
}

/// CSS of the project grid.
pub open spec fn app_style_text() -> Seq<char> {
    "
            .app {
                width: 100%;
                display: grid;
                padding: 20px 0;
                grid-gap: 20px;
                grid-template-columns: repeat(4, 1fr);
                grid-auto-flow: row dense;
            }
            @media only screen and (max-width: 640px) {
                .app {
                    grid-template-columns: repeat(1, 1fr);
                }
            }
        "@
}

/// The grid wrapper around the concatenated project cards.
pub open spec fn app_html_text(projects_html: Seq<char>) -> Seq<char> {
    "<div class=\"app\">"@ + projects_html + "</div>"@
}

/// The project grid.
pub struct App {
    pub projects_html: String,
}

impl App {
    pub fn style() -> (r: String)
        ensures
            r@ == app_style_text(),
    {
        String::from_str(
            "
            .app {
                width: 100%;
                display: grid;
                padding: 20px 0;
                grid-gap: 20px;
                grid-template-columns: repeat(4, 1fr);
                grid-auto-flow: row dense;
            }
            @media only screen and (max-width: 640px) {
                .app {
                    grid-template-columns: repeat(1, 1fr);
                }
            }
        ",
        )
    }

    pub fn to_html(&self) -> (r: String)
        ensures
            r@ == app_html_text(self.projects_html@),
    {
        let mut r = String::from_str("<div class=\"app\">");
        r.append(self.projects_html.as_str());
        r.append("</div>");
        r
    }
}

/// Global CSS.
pub open spec fn root_style_text() -> Seq<char> {
    "
            html, body {
                position: relative;
                width: 100%;
                height: 100%;
            }

            body {
                background: #111;
                color: #fff;
                margin: 0;
                padding: 2%;
                box-sizing: border-box;
                font-family: monospace;
            }

            h1 {
                display: inline-block;
                border-bottom: 1px solid #fff;
                width: 100%;
                height: 88px;
                margin: 0;
            }
        "@
}

/// The stylesheet of the whole page: global, title, grid and card CSS in order.
pub open spec fn all_style_text() -> Seq<char> {
    root_style_text() + title_style_text() + app_style_text() + project_style_text()
}

/// The full HTML document around a title fragment and a body fragment.
pub open spec fn root_html_text(title_html: Seq<char>, body_html: Seq<char>) -> Seq<char> {
    "<!DOCTYPE html>\n            <html>\n            <head>\n                <title>shockham</title>\n                <style>\n                    "@
        + all_style_text()
        + "\n                </style>\n            </head>\n            <body>\n                <h1>\n                    "@
        + title_html + "\n                </h1>\n                "@ + body_html
        + "\n            </body>\n            </html>\r\n"@
}

/// The document root.
pub struct Root {
    pub title_html: String,
    pub body_html: String,
}

impl Root {
    pub fn style() -> (r: String)
        ensures
            r@ == root_style_text(),
    {
        String::from_str(
            "
            html, body {
                position: relative;
                width: 100%;
                height: 100%;
            }

            body {
                background: #111;
                color: #fff;
                margin: 0;
                padding: 2%;
                box-sizing: border-box;
                font-family: monospace;
            }

            h1 {
                display: inline-block;
                border-bottom: 1px solid #fff;
                width: 100%;
                height: 88px;
                margin: 0;
            }
        ",
        )
    }

    pub fn to_html(&self) -> (r: String)
        ensures
            r@ == root_html_text(self.title_html@, self.body_html@),
    {
        let global_style = Root::style();
        let title_style = Title::style();
        let projects_style = Project::style();
        let app_style = App::style();
        let mut all_style = global_style;
        all_style.append(title_style.as_str());
        all_style.append(app_style.as_str());
        all_style.append(projects_style.as_str());

        let mut r = String::from_str(
            "<!DOCTYPE html>\n            <html>\n            <head>\n                <title>shockham</title>\n                <style>\n                    ",
        );
        r.append(all_style.as_str());
        r.append(
            "\n                </style>\n            </head>\n            <body>\n                <h1>\n                    ",
        );
        r.append(self.title_html.as_str());
        r.append("\n                </h1>\n                ");
        r.append(self.body_html.as_str());
        r.append("\n            </body>\n            </html>\r\n");
        proof {
            assert(r@ =~= root_html_text(self.title_html@, self.body_html@));
        }
        r
    }
}

/// The concatenated card HTML of a list of projects, in list order.
pub open spec fn projects_html_text(projects: Seq<Project>) -> Seq<char>
    decreases projects.len(),
{
    if projects.len() == 0 {
        Seq::<char>::empty()
    } else {
        projects_html_text(projects.drop_last()) + projects.last().html_text()
    }
}

/// The whole portfolio page as a function of the project list.
pub open spec fn page_text(projects: Seq<Project>) -> Seq<char> {
    root_html_text(title_html_text(), app_html_text(projects_html_text(projects)))
}

/// Renders the portfolio page for `projects`.
pub fn render_page(projects: &Vec<Project>) -> (r: String)
    ensures
        r@ == page_text(projects@),
{
    let mut projects_html = String::new();
    let mut i: usize = 0;
    proof {
        assert(projects@.subrange(0, 0) =~= Seq::<Project>::empty());
    }
    while i < projects.len()
        invariant
            i <= projects.len(),
            projects_html@ == projects_html_text(projects@.subrange(0, i as int)),
        decreases projects.len() - i,
    {
        let card = projects[i].to_html();
        projects_html.append(card.as_str());
        proof {
            let done = projects@.subrange(0, i + 1 as int);
            assert(done.drop_last() =~= projects@.subrange(0, i as int));
            assert(done.last() == projects@[i as int]);
        }
        i = i + 1;
    }
    proof {
        assert(projects@.subrange(0, projects@.len() as int) =~= projects@);
    }
    let title_html = (Title {}).to_html();
    let app = App { projects_html };
    let body_html = app.to_html();
    let root = Root { title_html, body_html };
    root.to_html()
}

} // verus!
