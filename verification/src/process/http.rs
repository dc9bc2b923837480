//! The file server's decisions, and the page that lists a directory.

use crate::utils::pairs_view;
use vstd::prelude::*;
use vstd::string::*;

verus! {

/// What the server does about a requested path.
#[derive(Debug, Clone, Copy, PartialEq, Eq, Structural)]
pub enum FileAction {
    /// Answer that nothing is there.
    NotFound,
    /// Answer with the page that lists the directory.
    List,
    /// Read the file and answer with what it holds.
    Read,
}

/// What to do about a path, given what the file system says of it: a file
/// is read, a directory is listed, and anything else is not found.
pub open spec fn file_action_spec(is_file: bool, is_dir: bool) -> FileAction {
    if is_file {
        FileAction::Read
    } else if is_dir {
        FileAction::List
    } else {
        FileAction::NotFound
    }
}

/// Decides what to do about a requested path.
pub fn file_action(is_file: bool, is_dir: bool) -> (r: FileAction)
    ensures
        r == file_action_spec(is_file, is_dir),
{
    if !is_file {
        if !is_dir {
            return FileAction::NotFound;
        }
        return FileAction::List;
    }
    FileAction::Read
}

/// One entry of the list: a link to `href` that shows `name`.
pub open spec fn link_item(href: Seq<char>, name: Seq<char>) -> Seq<char> {
    "<li><a href=\""@ + href + "\">"@ + name + "</a></li>"@
}

/// The entries of the list, one after the other, with a line break between
/// two of them.
pub open spec fn joined_items(links: Seq<(Seq<char>, Seq<char>)>) -> Seq<char>
    decreases links.len(),
{
    if links.len() == 0 {
        Seq::<char>::empty()
    } else if links.len() == 1 {
        link_item(links[0].0, links[0].1)
    } else {
        joined_items(links.drop_last()) + "\n"@ + link_item(links.last().0, links.last().1)
    }
}

/// The page that lists the `links` of the directory shown as `title`.
pub open spec fn listing_page(title: Seq<char>, links: Seq<(Seq<char>, Seq<char>)>) -> Seq<char> {
    "<html><body><h1>Directory listing for "@ + title + "</h1><ul>"@ + joined_items(links)
        + "</ul></body></html>"@
}

/// Builds the page that lists a directory: a heading with `title`, then
/// one link for each pair of address and name.
pub fn directory_listing(title: &str, links: &Vec<(String, String)>) -> (page: String)
    ensures
        page@ == listing_page(title@, pairs_view(*links)),
{
    let mut items = String::new();
    let mut i: usize = 0;
    while i < links.len()
        invariant
            i <= links@.len(),
            items@ == joined_items(pairs_view(*links).subrange(0, i as int)),
        decreases links@.len() - i,
    {
        let ghost done = pairs_view(*links).subrange(0, i as int);
        let ghost next = pairs_view(*links).subrange(0, i + 1);
        proof {
            assert(next.drop_last() =~= done);
            assert(next.last() == (links@[i as int].0@, links@[i as int].1@));
        }
        if i > 0 {
            items.append("\n");
        }
        items.append("<li><a href=\"");
        items.append(links[i].0.as_str());
        items.append("\">");
        items.append(links[i].1.as_str());
        items.append("</a></li>");
        proof {
            let item = link_item(links@[i as int].0@, links@[i as int].1@);
            if i == 0 {
                assert(done =~= Seq::<(Seq<char>, Seq<char>)>::empty());
                assert(items@ =~= item);
            } else {
                assert(items@ =~= joined_items(done) + "\n"@ + item);
            }
        }
        i = i + 1;
    }
    proof {
        assert(pairs_view(*links).subrange(0, i as int) =~= pairs_view(*links));
    }
    let mut page = String::from_str("<html><body><h1>Directory listing for ");
    page.append(title);
    page.append("</h1><ul>");
    page.append(items.as_str());
    page.append("</ul></body></html>");
    page
}

} // verus!
