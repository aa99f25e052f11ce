//! Which database shell a `DATABASE_URL` opens, and with what arguments.
use crate::text::{head, or_else, pos_from, pos_of, starts_with, starts_with_text, tail};
use vstd::prelude::*;
use vstd::string::StrSliceExecFns;

verus! {

/// The second of the pieces that `c` cuts `s` into, if there are two.
pub open spec fn second(s: Seq<char>, c: char) -> Option<Seq<char>> {
    match tail(s, c) {
        Some(t) => Some(head(t, c)),
        None => None,
    }
}

/// `s` with every leading repetition of `pre` removed.
pub open spec fn strip_all(s: Seq<char>, pre: Seq<char>) -> Seq<char>
    decreases s.len(),
{
    if pre.len() > 0 && starts_with(s, pre) {
        strip_all(s.subrange(pre.len() as int, s.len() as int), pre)
    } else {
        s
    }
}

/// The shell for a database address, as plain text.
pub ghost enum DbShellView {
    Postgres { user: Seq<char>, db: Seq<char> },
    Mysql { user: Seq<char>, db: Seq<char> },
    Sqlite { path: Seq<char> },
    Unsupported,
}

/// The shell an address opens. For PostgreSQL the user and database come
/// from `user/db@host` or from `user@host/db`; for MySQL from
/// `user:password@host/db`; for SQLite the rest of the address is the file.
pub open spec fn shell_for(url: Seq<char>) -> DbShellView {
    if starts_with(url, "postgres://"@) {
        let rest = strip_all(url, "postgres://"@);
        let creds = head(rest, '@');
        let host_db = or_else(second(rest, '@'), seq![]);
        if pos_from(creds, '/', 0) < creds.len() {
            DbShellView::Postgres { user: head(creds, '/'), db: tail(creds, '/')->0 }
        } else {
            DbShellView::Postgres { user: creds, db: or_else(second(host_db, '/'), "postgres"@) }
        }
    } else if starts_with(url, "mysql://"@) {
        let rest = strip_all(url, "mysql://"@);
        let host_db = or_else(second(rest, '@'), seq![]);
        DbShellView::Mysql {
            user: head(head(rest, '@'), ':'),
            db: or_else(second(host_db, '/'), seq![]),
        }
    } else if starts_with(url, "sqlite://"@) {
        DbShellView::Sqlite { path: strip_all(url, "sqlite://"@) }
    } else {
        DbShellView::Unsupported
    }
}

/// A database shell to launch.
#[derive(Debug, PartialEq, Eq)]
pub enum DbShell {
    /// `psql -U user db`
    Postgres { user: String, db: String },
    /// `mysql -u user db`
    Mysql { user: String, db: String },
    /// `sqlite3 path`
    Sqlite { path: String },
    /// An address of another kind.
    Unsupported,
}

impl View for DbShell {
    type V = DbShellView;

    open spec fn view(&self) -> DbShellView {
        match self {
            DbShell::Postgres { user, db } => DbShellView::Postgres { user: user@, db: db@ },
            DbShell::Mysql { user, db } => DbShellView::Mysql { user: user@, db: db@ },
            DbShell::Sqlite { path } => DbShellView::Sqlite { path: path@ },
            DbShell::Unsupported => DbShellView::Unsupported,
        }
    }
}

fn head_of(s: &str, c: char) -> (r: &str)
    ensures
        r@ == head(s@, c),
{
    let k = pos_of(s, c);
    s.substring_char(0, k)
}

fn tail_of(s: &str, c: char) -> (r: Option<&str>)
    ensures
        match r {
            Some(t) => tail(s@, c) == Some(t@),
            None => tail(s@, c) is None,
        },
{
    let k = pos_of(s, c);
    let n = s.unicode_len();
    if k < n {
        Some(s.substring_char(k + 1, n))
    } else {
        None
    }
}

fn second_of(s: &str, c: char) -> (r: Option<&str>)
    ensures
        match r {
            Some(t) => second(s@, c) == Some(t@),
            None => second(s@, c) is None,
        },
{
    match tail_of(s, c) {
        Some(t) => Some(head_of(t, c)),
        None => None,
    }
}

fn strip_all_of<'a>(s: &'a str, pre: &str) -> (r: &'a str)
    ensures
        r@ == strip_all(s@, pre@),
{
    let n = pre.unicode_len();
    if n == 0 {
        return s;
    }
    let mut rest = s;
    while starts_with_text(rest, pre)
        invariant
            n == pre@.len(),
            n > 0,
            strip_all(rest@, pre@) == strip_all(s@, pre@),
        decreases rest@.len(),
    {
        let len = rest.unicode_len();
        rest = rest.substring_char(n, len);
    }
    rest
}

fn owned_or(o: Option<&str>, d: &str) -> (r: String)
    ensures
        r@ == or_else(
            match o {
                Some(v) => Some(v@),
                None => None,
            },
            d@,
        ),
{
    match o {
        Some(v) => v.to_owned(),
        None => d.to_owned(),
    }
}

impl DbShell {
    /// The shell that the database address `url` opens.
    pub fn for_url(url: &str) -> (r: DbShell)
        ensures
            r@ == shell_for(url@),
    {
        if starts_with_text(url, "postgres://") {
            let rest = strip_all_of(url, "postgres://");
            let creds = head_of(rest, '@');
            let host_db = match second_of(rest, '@') {
                Some(h) => h,
                None => "",
            };
            proof {
                reveal_strlit("");
            }
            let k = pos_of(creds, '/');
            if k < creds.unicode_len() {
                let user = head_of(creds, '/').to_owned();
                let db = match tail_of(creds, '/') {
                    Some(d) => d.to_owned(),
                    None => String::new(),
                };
                DbShell::Postgres { user, db }
            } else {
                let db = owned_or(second_of(host_db, '/'), "postgres");
                DbShell::Postgres { user: creds.to_owned(), db }
            }
        } else if starts_with_text(url, "mysql://") {
            let rest = strip_all_of(url, "mysql://");
            let host_db = match second_of(rest, '@') {
                Some(h) => h,
                None => "",
            };
            proof {
                reveal_strlit("");
            }
            let user = head_of(head_of(rest, '@'), ':').to_owned();
            let db = owned_or(second_of(host_db, '/'), "");
            assert(""@ =~= Seq::<char>::empty());
            DbShell::Mysql { user, db }
        } else if starts_with_text(url, "sqlite://") {
            DbShell::Sqlite { path: strip_all_of(url, "sqlite://").to_owned() }
        } else {
            DbShell::Unsupported
        }
    }
}

} // verus!
