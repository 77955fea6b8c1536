use vstd::prelude::*;
use vstd::string::StrSliceExecFns;

verus! {

/// An HTTP method the service routes.
#[derive(Clone, Copy, Debug, PartialEq, Eq, Structural)]
pub enum Method {
    Get,
    Post,
    Delete,
}

/// The dispatch decision for one request: which handler runs, carrying the
/// raw identifier segment where the path addresses a single customer.
#[derive(Debug)]
pub enum Route {
    CreateCustomer,
    ListCustomers,
    GetCustomer(String),
    DeleteCustomer(String),
    NoRoute,
}

/// The collection path, addressing every customer.
pub open spec fn collection_path(path: Seq<char>) -> bool {
    path == "/customers"@
}

/// An item path: the collection path, a separator, then one non-empty
/// segment — the raw identifier — containing no further separator.
pub open spec fn item_path(path: Seq<char>) -> bool {
    &&& path.len() >= 12
    &&& path.take(11) == "/customers/"@
    &&& forall|i: int| 11 <= i < path.len() ==> #[trigger] path[i] != '/'
}

/// The raw identifier segment of an item path.
pub open spec fn item_id(path: Seq<char>) -> Seq<char> {
    path.skip(11)
}

/// Character-by-character string equality.
fn str_eq(a: &str, b: &str) -> (r: bool)
    ensures
        r == (a@ == b@),
{
    let na = a.unicode_len();
    let nb = b.unicode_len();
    if na != nb {
        return false;
    }
    let mut i: usize = 0;
    while i < na
        invariant
            na == a@.len(),
            na == b@.len(),
            i <= na,
            forall|j: int| 0 <= j < i ==> a@[j] == b@[j],
        decreases na - i,
    {
        let ca = a.get_char(i);
        let cb = b.get_char(i);
        if ca != cb {
            return false;
        }
        i = i + 1;
    }
    proof {
        assert(a@ =~= b@);
    }
    true
}

/// Pure dispatch over the static route table: the collection path serves
/// list and create, an item path serves get and delete, and anything else —
/// including a trailing separator, an empty identifier segment, or a deeper
/// path — matches no route. The dispatcher validates nothing: the raw
/// identifier segment is handed on as it stands.
pub fn match_route(m: Method, path: &str) -> (r: Route)
    ensures
        collection_path(path@) && m is Get ==> r is ListCustomers,
        collection_path(path@) && m is Post ==> r is CreateCustomer,
        collection_path(path@) && m is Delete ==> r is NoRoute,
        item_path(path@) && m is Get ==> (r matches Route::GetCustomer(id) && id@ == item_id(
            path@,
        )),
        item_path(path@) && m is Delete ==> (r matches Route::DeleteCustomer(id) && id@ == item_id(
            path@,
        )),
        item_path(path@) && m is Post ==> r is NoRoute,
        !collection_path(path@) && !item_path(path@) ==> r is NoRoute,
{
    proof {
        reveal_strlit("/customers");
        reveal_strlit("/customers/");
    }
    if str_eq(path, "/customers") {
        return match m {
            Method::Get => Route::ListCustomers,
            Method::Post => Route::CreateCustomer,
            Method::Delete => Route::NoRoute,
        };
    }
    let n = path.unicode_len();
    if n >= 12 {
        let prefix = path.substring_char(0, 11);
        if str_eq(prefix, "/customers/") {
            let mut i: usize = 11;
            while i < n
                invariant
                    n == path@.len(),
                    11 <= i <= n,
                    !collection_path(path@),
                    forall|j: int| 11 <= j < i ==> #[trigger] path@[j] != '/',
                decreases n - i,
            {
                if path.get_char(i) == '/' {
                    proof {
                        assert(path@[i as int] == '/');
                    }
                    return Route::NoRoute;
                }
                i = i + 1;
            }
            let id = path.substring_char(11, n).to_owned();
            proof {
                assert(path@.subrange(11, n as int) =~= item_id(path@));
            }
            return match m {
                Method::Get => Route::GetCustomer(id),
                Method::Post => Route::NoRoute,
                Method::Delete => Route::DeleteCustomer(id),
            };
        }
    }
    Route::NoRoute
}

} // verus!
