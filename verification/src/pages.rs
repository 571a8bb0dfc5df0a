//! The routes of the web server and its plain pages.

use vstd::prelude::*;

use crate::names::{escape_html, escaped};
use crate::record::{FileMetadata, Record};
use crate::reply::{html_reply, Answer, Reply, OK};
use crate::text::{decimal, occurs, occurs_at, push_decimal};

verus! {

// ---------------------------------------------------------------------------------------------
// Routes
// ---------------------------------------------------------------------------------------------

/// The largest request body that the server takes, in bytes.
pub const MAX_BODY_BYTES: usize = 52_428_800;

/// What answers a request.
#[derive(Debug, Clone, Copy, PartialEq, Eq, Structural)]
pub enum Endpoint {
    /// `root`.
    Root,
    /// `health`.
    Health,
    /// A download by the identifier in the path.
    FileById,
    /// The records of all files, as JSON.
    FilesApi,
    /// An upload.
    FilesUpload,
    /// `files_list`.
    FilesList,
    /// `not_found_handler`.
    NotFound,
}

/// The method of a request.
#[derive(Debug, Clone, Copy, PartialEq, Eq, Structural)]
pub enum Method {
    Get,
    Post,
}

/// A path that the server answers.
#[derive(Debug, Clone, Copy)]
pub struct Route {
    pub method: Method,
    pub path: &'static str,
    pub endpoint: Endpoint,
}

/// How the server is set up.
#[derive(Debug)]
pub struct App {
    pub routes: Vec<Route>,
    /// The largest request body that the server takes, in bytes.
    pub max_body_bytes: usize,
    /// What answers a request that no route answers.
    pub fallback: Endpoint,
}

/// A list of routes: method, path and endpoint of each.
pub open spec fn route_list(routes: Seq<Route>) -> Seq<(Method, Seq<char>, Endpoint)> {
    routes.map_values(|r: Route| (r.method, r.path@, r.endpoint))
}

/// The routes that the server always has.
pub open spec fn fixed_routes() -> Seq<(Method, Seq<char>, Endpoint)> {
    seq![
        (Method::Get, "/"@, Endpoint::Root),
        (Method::Get, "/health"@, Endpoint::Health),
        (Method::Get, "/files/:id"@, Endpoint::FileById),
        (Method::Get, "/api/files"@, Endpoint::FilesApi),
        (Method::Post, "/api/files/upload"@, Endpoint::FilesUpload),
    ]
}

/// Sets the server up: its routes, of which the page that lists the files is there only where it is
/// enabled, a limit of 50 MB on request bodies, and a page for all other paths.
pub fn create_app(enable_files_route: bool) -> (app: App)
    ensures
        enable_files_route ==> route_list(app.routes@) == fixed_routes().push(
            (Method::Get, "/files"@, Endpoint::FilesList),
        ),
        !enable_files_route ==> route_list(app.routes@) == fixed_routes(),
        app.routes@.len() == if enable_files_route { 6nat } else { 5nat },
        forall|i: int|
            0 <= i < app.routes@.len() ==> (#[trigger] app.routes@[i]).method == if i == 4 {
                Method::Post
            } else {
                Method::Get
            },
        app.routes@[0].path@ == "/"@ && app.routes@[0].endpoint == Endpoint::Root,
        app.routes@[1].path@ == "/health"@ && app.routes@[1].endpoint == Endpoint::Health,
        app.routes@[2].path@ == "/files/:id"@ && app.routes@[2].endpoint == Endpoint::FileById,
        app.routes@[3].path@ == "/api/files"@ && app.routes@[3].endpoint == Endpoint::FilesApi,
        app.routes@[4].path@ == "/api/files/upload"@ && app.routes@[4].endpoint
            == Endpoint::FilesUpload,
        enable_files_route ==> app.routes@[5].path@ == "/files"@ && app.routes@[5].endpoint
            == Endpoint::FilesList,
        app.max_body_bytes == 50 * 1024 * 1024,
        app.fallback == Endpoint::NotFound,
{
    let mut routes: Vec<Route> = Vec::new();
    routes.push(Route { method: Method::Get, path: "/", endpoint: Endpoint::Root });
    routes.push(Route { method: Method::Get, path: "/health", endpoint: Endpoint::Health });
    routes.push(Route { method: Method::Get, path: "/files/:id", endpoint: Endpoint::FileById });
    routes.push(Route { method: Method::Get, path: "/api/files", endpoint: Endpoint::FilesApi });
    routes.push(
        Route { method: Method::Post, path: "/api/files/upload", endpoint: Endpoint::FilesUpload },
    );
    assert(route_list(routes@) =~= fixed_routes());
    if enable_files_route {
        let ghost fixed = routes@;
        routes.push(Route { method: Method::Get, path: "/files", endpoint: Endpoint::FilesList });
        assert(route_list(routes@) =~= route_list(fixed).push(
            (Method::Get, "/files"@, Endpoint::FilesList),
        ));
    }
    App { routes, max_body_bytes: MAX_BODY_BYTES, fallback: Endpoint::NotFound }
}

// ---------------------------------------------------------------------------------------------
// Fixed pages
// ---------------------------------------------------------------------------------------------

/// The answer to a health check.
pub fn health() -> (res: &'static str)
    ensures
        res@ == "OK"@,
{
    "OK"
}

/// The home page.
pub fn root() -> (res: Reply)
    ensures
        res@ == (Answer::Html {
            status: OK,
            body: "<h1>Server working</h1><div><a href=\"https://github.com/Pushkar279/fileslink\">GitHub</a></div>"@,
        }),
{
    html_reply(
        OK,
        "<h1>Server working</h1><div><a href=\"https://github.com/Pushkar279/fileslink\">GitHub</a></div>",
    )
}

/// The page for a path that no route answers.
pub fn not_found_handler() -> (res: Reply)
    ensures
        res@ == (Answer::Html {
            status: OK,
            body: "<h1>404 Not Found</h1><p>The page you are looking for does not exist.</p><a href=\"/\">Go back to the homepage</a>"@,
        }),
{
    html_reply(
        OK,
        "<h1>404 Not Found</h1><p>The page you are looking for does not exist.</p><a href=\"/\">Go back to the homepage</a>",
    )
}

// ---------------------------------------------------------------------------------------------
// The list of files
// ---------------------------------------------------------------------------------------------

/// A file as an item of the list: a link with its name, and its size.
pub open spec fn list_item(file: Record) -> Seq<char> {
    "<li><a href=\"/files/"@ + escaped(file.unique_id) + "\">"@ + escaped(file.file_name) + "</a>("@
        + decimal(file.file_size as nat) + " bytes)</li>"@
}

/// The items of the list, in the order of the files.
pub open spec fn list_items(files: Seq<FileMetadata>) -> Seq<char>
    decreases files.len(),
{
    if files.len() == 0 {
        Seq::empty()
    } else {
        list_items(files.drop_last()) + list_item(files.last()@)
    }
}

/// The page that lists the files.
pub open spec fn list_page(files: Seq<FileMetadata>) -> Seq<char> {
    if files.len() == 0 {
        "<h1>Files in storage</h1><p>No files uploaded yet.</p>"@
    } else {
        "<h1>Files in storage</h1><ul>"@ + list_items(files) + "</ul>"@
    }
}

fn push_item(html: &mut String, file: &FileMetadata)
    ensures
        final(html)@ == old(html)@ + list_item(file@),
{
    html.append("<li><a href=\"/files/");
    html.append(escape_html(file.unique_id.as_str()).as_str());
    html.append("\">");
    html.append(escape_html(file.file_name.as_str()).as_str());
    html.append("</a>(");
    push_decimal(html, file.file_size as u64);
    html.append(" bytes)</li>");
    assert(html@ =~= old(html)@ + list_item(file@));
}

/// Answers with the page that lists the files.
pub fn files_list(files: &Vec<FileMetadata>) -> (res: Reply)
    ensures
        res@ == (Answer::Html { status: OK, body: list_page(files@) }),
{
    if files.is_empty() {
        return html_reply(OK, "<h1>Files in storage</h1><p>No files uploaded yet.</p>");
    }
    let mut html = "<h1>Files in storage</h1><ul>".to_owned();
    for i in 0..files.len()
        invariant
            html@ == "<h1>Files in storage</h1><ul>"@ + list_items(files@.take(i as int)),
    {
        push_item(&mut html, &files[i]);
        assert(files@.take(i + 1).drop_last() =~= files@.take(i as int));
        assert(html@ =~= "<h1>Files in storage</h1><ul>"@ + list_items(files@.take(i + 1)));
    }
    assert(files@.take(files@.len() as int) =~= files@);
    html.append("</ul>");
    Reply::Html { status: OK, body: html }
}

proof fn lemma_item_place(files: Seq<FileMetadata>, i: int)
    requires
        0 <= i < files.len(),
    ensures
        occurs_at(
            list_items(files),
            list_item(files[i]@),
            list_items(files.take(i)).len() as int,
        ),
    decreases files.len(),
{
    let init = files.drop_last();
    let item = list_item(files[i]@);
    let place = list_items(files.take(i)).len() as int;
    if i == files.len() - 1 {
        assert(files.take(i) =~= init);
        assert(list_items(files).subrange(place, place + item.len()) =~= item);
    } else {
        lemma_item_place(init, i);
        assert(init.take(i) =~= files.take(i));
        assert(list_items(files).subrange(place, place + item.len()) =~= list_items(init).subrange(
            place,
            place + item.len(),
        ));
    }
}

/// The page shows every file.
pub proof fn law_list_shows_every_file(files: Seq<FileMetadata>, i: int)
    requires
        0 <= i < files.len(),
    ensures
        occurs(list_page(files), list_item(files[i]@)),
{
    lemma_item_place(files, i);
    let head = "<h1>Files in storage</h1><ul>"@;
    let item = list_item(files[i]@);
    let place = list_items(files.take(i)).len() as int;
    assert(list_page(files).subrange(head.len() + place, head.len() + place + item.len())
        =~= list_items(files).subrange(place, place + item.len()));
    assert(occurs_at(list_page(files), item, head.len() + place));
}

proof fn lemma_items_concat(a: Seq<FileMetadata>, b: Seq<FileMetadata>)
    ensures
        list_items(a + b) == list_items(a) + list_items(b),
    decreases b.len(),
{
    if b.len() == 0 {
        assert(a + b =~= a);
        assert(list_items(a) + list_items(b) =~= list_items(a));
    } else {
        assert((a + b).drop_last() =~= a + b.drop_last());
        lemma_items_concat(a, b.drop_last());
        assert(list_items(a + b) =~= list_items(a) + list_items(b));
    }
}

/// The list is written file by file, in order: a link to the file under its escaped name, and its
/// size in bytes. The page holds nothing but its heading and the list, or says that there is none.
pub proof fn law_list_is_file_by_file(
    before: Seq<FileMetadata>,
    file: FileMetadata,
    after: Seq<FileMetadata>,
)
    ensures
        list_page(Seq::empty()) == "<h1>Files in storage</h1><p>No files uploaded yet.</p>"@,
        list_page(before.push(file) + after) == "<h1>Files in storage</h1><ul>"@ + (list_items(
            before,
        ) + ("<li><a href=\"/files/"@ + escaped(file.unique_id@) + "\">"@ + escaped(
            file.file_name@,
        ) + "</a>("@ + decimal(file.file_size as nat) + " bytes)</li>"@) + list_items(after))
            + "</ul>"@,
        list_items(Seq::empty()) == Seq::<char>::empty(),
{
    lemma_items_concat(before.push(file), after);
    assert(before.push(file).drop_last() =~= before);
}

} // verus!
