use vstd::prelude::*;
use vstd::string::StringExecFns;

verus! {

/// Initial top-left position of a window, in physical pixels.
#[derive(Clone, Copy, Debug, PartialEq, Eq, Structural)]
pub struct WindowPosition {
    pub x: i32,
    pub y: i32,
}

/// One `key=value` parameter handed to a window's content route.
#[derive(Debug)]
pub struct QueryParam {
    pub key: String,
    pub value: String,
}

/// Display metadata of one logical window.
#[derive(Debug)]
pub struct WindowDescriptor {
    pub id: String,
    pub title: String,
    pub width: u32,
    pub height: u32,
    pub position: Option<WindowPosition>,
    pub route: String,
    pub params: Vec<QueryParam>,
}

pub struct DescriptorModel {
    pub id: Seq<char>,
    pub title: Seq<char>,
    pub width: u32,
    pub height: u32,
    pub position: Option<WindowPosition>,
    pub route: Seq<char>,
    pub params: Seq<(Seq<char>, Seq<char>)>,
}

impl View for QueryParam {
    type V = (Seq<char>, Seq<char>);

    open spec fn view(&self) -> (Seq<char>, Seq<char>) {
        (self.key@, self.value@)
    }
}

impl View for WindowDescriptor {
    type V = DescriptorModel;

    open spec fn view(&self) -> DescriptorModel {
        DescriptorModel {
            id: self.id@,
            title: self.title@,
            width: self.width,
            height: self.height,
            position: self.position,
            route: self.route@,
            params: self.params@.map_values(|p: QueryParam| p@),
        }
    }
}

pub const FALLBACK_WIDTH: u32 = 500;
pub const FALLBACK_HEIGHT: u32 = 500;
pub const FALLBACK_X: i32 = 250;
pub const FALLBACK_Y: i32 = 250;

/// The route every window's content is served from unless the catalog says otherwise.
pub open spec fn default_route() -> Seq<char> {
    "index.html"@
}

/// What a window that the catalog does not know is opened with.
pub open spec fn fallback_model(id: Seq<char>) -> DescriptorModel {
    DescriptorModel {
        id: id,
        title: "Window ("@ + id + ")"@,
        width: FALLBACK_WIDTH,
        height: FALLBACK_HEIGHT,
        position: Some(WindowPosition { x: FALLBACK_X, y: FALLBACK_Y }),
        route: default_route(),
        params: Seq::empty(),
    }
}

/// `k1=v1&k2=v2&...`, in the order given.
pub open spec fn query_of(ps: Seq<(Seq<char>, Seq<char>)>) -> Seq<char>
    decreases ps.len(),
{
    if ps.len() == 0 {
        Seq::empty()
    } else if ps.len() == 1 {
        ps[0].0 + "="@ + ps[0].1
    } else {
        query_of(ps.drop_last()) + "&"@ + ps.last().0 + "="@ + ps.last().1
    }
}

/// The route, followed by `?` and the query when there are parameters.
pub open spec fn content_url_of(d: DescriptorModel) -> Seq<char> {
    if d.params.len() == 0 {
        d.route
    } else {
        d.route + "?"@ + query_of(d.params)
    }
}

/// The first descriptor with the given identifier.
pub open spec fn resolve_in(ws: Seq<DescriptorModel>, id: Seq<char>) -> Option<DescriptorModel>
    decreases ws.len(),
{
    if ws.len() == 0 {
        None
    } else if ws[0].id == id {
        Some(ws[0])
    } else {
        resolve_in(ws.drop_first(), id)
    }
}

/// The descriptor that an open operation on `id` uses: the first of `ws` with that
/// identifier, else the fallback.
pub open spec fn descriptor_in(ws: Seq<DescriptorModel>, id: Seq<char>) -> DescriptorModel {
    match resolve_in(ws, id) {
        Some(d) => d,
        None => fallback_model(id),
    }
}

fn copy_string(s: &String) -> (r: String)
    ensures
        r@ == s@,
{
    s.clone()
}

impl QueryParam {
    pub fn duplicate(&self) -> (r: QueryParam)
        ensures
            r@ == self@,
    {
        QueryParam { key: copy_string(&self.key), value: copy_string(&self.value) }
    }
}

impl WindowDescriptor {
    /// A field-by-field copy.
    pub fn duplicate(&self) -> (r: WindowDescriptor)
        ensures
            r@ == self@,
    {
        let mut params: Vec<QueryParam> = Vec::new();
        let n = self.params.len();
        let mut i: usize = 0;
        while i < n
            invariant
                n == self.params@.len(),
                i <= n,
                params@.len() == i,
                forall|j: int| 0 <= j < i ==> params@[j]@ == self.params@[j]@,
            decreases n - i,
        {
            params.push(self.params[i].duplicate());
            i = i + 1;
        }
        let r = WindowDescriptor {
            id: copy_string(&self.id),
            title: copy_string(&self.title),
            width: self.width,
            height: self.height,
            position: self.position,
            route: copy_string(&self.route),
            params,
        };
        assert(r.params@.map_values(|p: QueryParam| p@) =~= self.params@.map_values(|p: QueryParam| p@));
        r
    }

    /// The descriptor synthesised for an identifier that the catalog does not know:
    /// titled `Window (<id>)`, 500 by 500, at (250, 250).
    pub fn fallback(id: &str) -> (r: WindowDescriptor)
        ensures
            r@ == fallback_model(id@),
    {
        let mut title = String::from_str("Window (");
        title.append(id);
        title.append(")");
        let r = WindowDescriptor {
            id: String::from_str(id),
            title,
            width: FALLBACK_WIDTH,
            height: FALLBACK_HEIGHT,
            position: Some(WindowPosition { x: FALLBACK_X, y: FALLBACK_Y }),
            route: String::from_str("index.html"),
            params: Vec::new(),
        };
        assert(r.params@.map_values(|p: QueryParam| p@) =~= Seq::<(Seq<char>, Seq<char>)>::empty());
        r
    }

    /// The parameters joined as `k1=v1&k2=v2`.
    pub fn query(&self) -> (r: String)
        ensures
            r@ == query_of(self@.params),
    {
        let ghost ps = self@.params;
        let mut r = String::new();
        let n = self.params.len();
        let mut i: usize = 0;
        while i < n
            invariant
                n == self.params@.len(),
                ps == self@.params,
                i <= n,
                r@ == query_of(ps.subrange(0, i as int)),
            decreases n - i,
        {
            let ghost prev = ps.subrange(0, i as int);
            let ghost next = ps.subrange(0, i as int + 1);
            assert(next.drop_last() =~= prev);
            if i > 0 {
                r.append("&");
            }
            r.append(self.params[i].key.as_str());
            r.append("=");
            r.append(self.params[i].value.as_str());
            assert(next.last() == self.params@[i as int]@);
            assert(r@ =~= query_of(next));
            i = i + 1;
        }
        assert(ps.subrange(0, n as int) =~= ps);
        r
    }

    /// The URL the window's content is loaded from.
    pub fn content_url(&self) -> (r: String)
        ensures
            r@ == content_url_of(self@),
    {
        let mut r = copy_string(&self.route);
        if self.params.len() > 0 {
            let q = self.query();
            r.append("?");
            r.append(q.as_str());
        }
        r
    }
}

/// The read-only table of known windows.
pub struct WindowCatalog {
    pub windows: Vec<WindowDescriptor>,
}

impl View for WindowCatalog {
    type V = Seq<DescriptorModel>;

    open spec fn view(&self) -> Seq<DescriptorModel> {
        self.windows@.map_values(|w: WindowDescriptor| w@)
    }
}

impl WindowCatalog {
    pub fn new(windows: Vec<WindowDescriptor>) -> (r: WindowCatalog)
        ensures
            r.windows@ == windows@,
    {
        WindowCatalog { windows }
    }

    /// The descriptor that an open operation on `id` uses: the catalog's own, else the fallback.
    pub open spec fn descriptor_for(&self, id: Seq<char>) -> DescriptorModel {
        descriptor_in(self@, id)
    }

    /// The first entry of the catalog with the given identifier.
    pub fn find_window_definition(&self, id: &str) -> (r: Option<WindowDescriptor>)
        ensures
            match r {
                Some(d) => resolve_in(self@, id@) == Some(d@),
                None => resolve_in(self@, id@) is None,
            },
    {
        let key = String::from_str(id);
        let n = self.windows.len();
        let mut i: usize = 0;
        assert(self@.subrange(0, n as int) =~= self@);
        while i < n
            invariant
                n == self@.len(),
                i <= n,
                key@ == id@,
                resolve_in(self@, id@) == resolve_in(self@.subrange(i as int, n as int), id@),
            decreases n - i,
        {
            let ghost rest = self@.subrange(i as int, n as int);
            assert(rest.drop_first() =~= self@.subrange(i as int + 1, n as int));
            assert(rest[0] == self.windows@[i as int]@);
            if self.windows[i].id == key {
                return Some(self.windows[i].duplicate());
            }
            i = i + 1;
        }
        None
    }

    /// The catalog's descriptor for `id`, or the fallback when it has none.
    pub fn resolve_or_fallback(&self, id: &str) -> (r: WindowDescriptor)
        ensures
            r@ == self.descriptor_for(id@),
    {
        match self.find_window_definition(id) {
            Some(d) => d,
            None => WindowDescriptor::fallback(id),
        }
    }
}

} // verus!
