use vstd::prelude::*;

use crate::error::ExtractError;

verus! {

/// The origin that makes the site-relative image paths absolute.
pub const SITE_ORIGIN: &'static str = "https://www.family.co.jp";

/// The attribute that holds an image's path.
pub const IMAGE_SOURCE_KEY: &'static str = "src";

/// What one profile column of the page offered.
pub struct ProfileColumn {
    /// The image element's attributes as a flat key, value, key, value list;
    /// `None` where the column has no image element.
    pub image_attributes: Option<Vec<String>>,
    /// The bold element's text; `None` where there is no such element.
    pub name: Option<String>,
    /// The description paragraph's text; `None` where there is no such element.
    pub description: Option<String>,
}

/// A featured person.
#[derive(Clone, Debug)]
pub struct Person {
    pub name: String,
    pub description: String,
    /// Absolute URL of the person's picture.
    pub image_url: String,
}

impl View for Person {
    type V = (Seq<char>, Seq<char>, Seq<char>);

    open spec fn view(&self) -> (Seq<char>, Seq<char>, Seq<char>) {
        (self.name@, self.description@, self.image_url@)
    }
}

pub open spec fn option_view(o: Option<String>) -> Option<Seq<char>> {
    match o {
        Some(s) => Some(s@),
        None => None,
    }
}

pub open spec fn attributes_view(o: Option<Vec<String>>) -> Option<Seq<Seq<char>>> {
    match o {
        Some(v) => Some(v.deep_view()),
        None => None,
    }
}

/// The value of the first attribute named `key` in a flat key/value list,
/// read as pairs from position `i` on.
pub open spec fn attribute_from(attrs: Seq<Seq<char>>, key: Seq<char>, i: int) -> Option<
    Seq<char>,
>
    decreases attrs.len() - i,
{
    if i < 0 || i + 1 >= attrs.len() {
        None
    } else if attrs[i] == key {
        Some(attrs[i + 1])
    } else {
        attribute_from(attrs, key, i + 2)
    }
}

/// The value of the attribute named `key`, the list read as key/value pairs.
pub open spec fn attribute_value(attrs: Seq<Seq<char>>, key: Seq<char>) -> Option<Seq<char>> {
    attribute_from(attrs, key, 0)
}

/// The person that a column yields, or the first thing missing from it.
pub open spec fn person_of(
    image_attributes: Option<Seq<Seq<char>>>,
    name: Option<Seq<char>>,
    description: Option<Seq<char>>,
) -> Result<(Seq<char>, Seq<char>, Seq<char>), ExtractError> {
    match image_attributes {
        None => Err(ExtractError::ElementNotFound),
        Some(attrs) => match attribute_value(attrs, IMAGE_SOURCE_KEY@) {
            None => Err(ExtractError::AttributeMissing),
            Some(src) => match (name, description) {
                (Some(n), Some(d)) => Ok((n, d, SITE_ORIGIN@ + src)),
                _ => Err(ExtractError::ElementNotFound),
            },
        },
    }
}

impl ProfileColumn {
    pub open spec fn person(&self) -> Result<(Seq<char>, Seq<char>, Seq<char>), ExtractError> {
        person_of(
            attributes_view(self.image_attributes),
            option_view(self.name),
            option_view(self.description),
        )
    }
}

/// Looks up the attribute `key` in a flat key/value list.
pub fn find_attribute(attrs: &Vec<String>, key: &str) -> (r: Option<String>)
    ensures
        option_view(r) == attribute_value(attrs.deep_view(), key@),
{
    let ghost av = attrs.deep_view();
    let k = String::from_str(key);
    let mut i: usize = 0;
    while i + 1 < attrs.len()
        invariant
            av == attrs.deep_view(),
            k@ == key@,
            i % 2 == 0,
            i <= attrs@.len() + 1,
            attribute_from(av, key@, i as int) == attribute_from(av, key@, 0),
        decreases attrs@.len() + 2 - i,
    {
        if attrs[i] == k {
            return Some(attrs[i + 1].clone());
        }
        i = i + 2;
    }
    None
}

/// Reads one profile column into a person.
pub fn read_column(column: &ProfileColumn) -> (r: Result<Person, ExtractError>)
    ensures
        match (r, column.person()) {
            (Ok(p), Ok(q)) => p@ == q,
            (Err(e), Err(f)) => e == f,
            _ => false,
        },
{
    let attrs = match &column.image_attributes {
        Some(a) => a,
        None => {
            return Err(ExtractError::ElementNotFound);
        },
    };
    let src = match find_attribute(attrs, IMAGE_SOURCE_KEY) {
        Some(s) => s,
        None => {
            return Err(ExtractError::AttributeMissing);
        },
    };
    let name = match &column.name {
        Some(n) => n.clone(),
        None => {
            return Err(ExtractError::ElementNotFound);
        },
    };
    let description = match &column.description {
        Some(d) => d.clone(),
        None => {
            return Err(ExtractError::ElementNotFound);
        },
    };
    let mut image_url = String::from_str(SITE_ORIGIN);
    image_url.append(src.as_str());
    Ok(Person { name, description, image_url })
}

/// The column of a list at which reading first fails, if any.
pub open spec fn roster_of(columns: Seq<ProfileColumn>) -> Result<
    Seq<(Seq<char>, Seq<char>, Seq<char>)>,
    ExtractError,
> {
    if forall|i: int| 0 <= i < columns.len() ==> (#[trigger] columns[i].person()) is Ok {
        Ok(Seq::new(columns.len(), |i: int| columns[i].person()->Ok_0))
    } else {
        let i = choose|i: int|
            0 <= i < columns.len() && (#[trigger] columns[i].person()) is Err && forall|j: int|
                0 <= j < i ==> (#[trigger] columns[j].person()) is Ok;
        Err(columns[i].person()->Err_0)
    }
}

/// Reads every profile column, in order, into the roster of persons.
pub fn extract_persons(columns: &Vec<ProfileColumn>) -> (r: Result<Vec<Person>, ExtractError>)
    ensures
        match (r, roster_of(columns@)) {
            (Ok(v), Ok(s)) => v@.map_values(|p: Person| p@) == s,
            (Err(e), Err(f)) => e == f,
            _ => false,
        },
        r is Ok ==> r->Ok_0@.len() == columns@.len(),
        r is Ok ==> forall|i: int|
            0 <= i < r->Ok_0@.len() ==> SITE_ORIGIN@.is_prefix_of(#[trigger] r->Ok_0@[i].image_url@),
{
    let mut out: Vec<Person> = Vec::new();
    let mut i: usize = 0;
    while i < columns.len()
        invariant
            i <= columns@.len(),
            out@.len() == i,
            forall|j: int| 0 <= j < i ==> (#[trigger] columns@[j].person()) is Ok,
            forall|j: int| 0 <= j < i ==> #[trigger] out@[j]@ == columns@[j].person()->Ok_0,
        decreases columns@.len() - i,
    {
        match read_column(&columns[i]) {
            Ok(p) => {
                out.push(p);
            },
            Err(e) => {
                let ghost cs = columns@;
                assert(cs[i as int].person() is Err);
                assert(exists|k: int|
                    0 <= k < cs.len() && (#[trigger] cs[k].person()) is Err && forall|j: int|
                        0 <= j < k ==> (#[trigger] cs[j].person()) is Ok);
                let ghost k = choose|k: int|
                    0 <= k < cs.len() && (#[trigger] cs[k].person()) is Err && forall|j: int|
                        0 <= j < k ==> (#[trigger] cs[j].person()) is Ok;
                assert(k == i) by {
                    if k < i {
                        assert(cs[k].person() is Ok);
                    } else if k > i {
                        assert(cs[i as int].person() is Ok);
                    }
                };
                return Err(e);
            },
        }
        i = i + 1;
    }
    assert(out@.map_values(|p: Person| p@) =~= roster_of(columns@)->Ok_0);
    assert forall|j: int| 0 <= j < out@.len() implies SITE_ORIGIN@.is_prefix_of(
        #[trigger] out@[j].image_url@,
    ) by {
        let q = columns@[j].person()->Ok_0;
        assert(out@[j]@ == q);
        let src = attribute_value(attributes_view(columns@[j].image_attributes)->Some_0, IMAGE_SOURCE_KEY@)->Some_0;
        assert(q.2 == SITE_ORIGIN@ + src);
        assert((SITE_ORIGIN@ + src).subrange(0, SITE_ORIGIN@.len() as int) =~= SITE_ORIGIN@);
    };
    Ok(out)
}

} // verus!
