//! Which camera the station connects to.
use vstd::prelude::*;
use vstd::std_specs::iter::IteratorSpec;

verus! {

/// The small letter for a capital letter of ASCII, and any other character as it is.
pub open spec fn ascii_lower(c: char) -> char {
    if 'A' <= c && c <= 'Z' {
        (c as u8 + 32) as u8 as char
    } else {
        c
    }
}

/// The two texts differ at most in the case of ASCII letters.
pub open spec fn same_but_for_case(a: Seq<char>, b: Seq<char>) -> bool {
    &&& a.len() == b.len()
    &&& forall|i: int| 0 <= i < a.len() ==> ascii_lower(#[trigger] a[i]) == ascii_lower(b[i])
}

fn to_ascii_lower(c: char) -> (lower: char)
    ensures
        lower == ascii_lower(c),
{
    if 'A' <= c && c <= 'Z' {
        (c as u8 + 32) as char
    } else {
        c
    }
}

/// Whether the two texts differ at most in the case of ASCII letters.
pub fn eq_ignore_ascii_case(a: &str, b: &str) -> (same: bool)
    ensures
        same == same_but_for_case(a@, b@),
{
    broadcast use vstd::string::group_string_axioms;

    let mut left = a.chars();
    let mut right = b.chars();
    let ghost mut seen: int = 0;
    loop
        invariant
            0 <= seen <= a@.len(),
            seen <= b@.len(),
            left.obeys_prophetic_iter_laws(),
            right.obeys_prophetic_iter_laws(),
            left.remaining() == a@.skip(seen),
            right.remaining() == b@.skip(seen),
            forall|i: int|
                0 <= i < seen ==> ascii_lower(#[trigger] a@[i]) == ascii_lower(b@[i]),
        decreases a@.len() - seen,
    {
        match (left.next(), right.next()) {
            (Some(x), Some(y)) => {
                if to_ascii_lower(x) != to_ascii_lower(y) {
                    assert(x == a@[seen]);
                    return false;
                }
                proof {
                    seen = seen + 1;
                }
            },
            (None, None) => {
                return true;
            },
            _ => {
                return false;
            },
        }
    }
}

/// The name of the camera that needs no hardware.
pub const DUMMY_CAMERA: &'static str = "dummy";

/// Which camera the configuration asks for.
#[derive(Clone, Copy, Debug)]
pub enum CameraRequest<'a> {
    /// The camera that needs no hardware. The driver is not asked for its devices.
    Dummy,
    /// The first device of this name, whatever the case of its letters.
    Named(&'a str),
    /// The first device.
    First,
}

/// Device `i` is the first whose name is `name`, whatever the case of its letters.
pub open spec fn is_first_named(names: Seq<Seq<char>>, name: Seq<char>, i: int) -> bool {
    &&& 0 <= i < names.len()
    &&& same_but_for_case(names[i], name)
    &&& forall|j: int| 0 <= j < i ==> !same_but_for_case(#[trigger] names[j], name)
}

/// The texts of the strings.
pub open spec fn texts(names: Seq<String>) -> Seq<Seq<char>> {
    names.map_values(|name: String| name@)
}

impl<'a> CameraRequest<'a> {
    /// The request that a configured camera name stands for.
    pub fn new(camera: &'a Option<String>) -> (request: CameraRequest<'a>)
        ensures
            match camera {
                None => request is First,
                Some(name) => if name@ == DUMMY_CAMERA@ {
                    request is Dummy
                } else {
                    request matches CameraRequest::Named(text) && text@ == name@
                },
            },
    {
        match camera {
            None => CameraRequest::First,
            Some(name) => if *name == DUMMY_CAMERA.to_owned() {
                CameraRequest::Dummy
            } else {
                CameraRequest::Named(name.as_str())
            },
        }
    }

    /// The request can be met by device `i` of those with these names.
    pub open spec fn selects(self, names: Seq<Seq<char>>, i: int) -> bool {
        match self {
            CameraRequest::Dummy => false,
            CameraRequest::Named(name) => is_first_named(names, name@, i),
            CameraRequest::First => i == 0 && names.len() > 0,
        }
    }

    /// The selection is a device that meets the request, and there is none only if no device does.
    pub open spec fn is_selection(self, names: Seq<Seq<char>>, index: Option<usize>) -> bool {
        match index {
            Some(i) => self.selects(names, i as int),
            None => forall|i: int| !#[trigger] self.selects(names, i),
        }
    }

    /// Selects among the devices of a driver, given by their names in the order of the driver.
    /// There is no result if the request cannot be met.
    pub fn select(self, names: &Vec<String>) -> (index: Option<usize>)
        ensures
            self.is_selection(texts(names@), index),
    {
        match self {
            CameraRequest::Dummy => None,
            CameraRequest::First => if names.len() == 0 {
                None
            } else {
                Some(0)
            },
            CameraRequest::Named(name) => {
                let mut i: usize = 0;
                while i < names.len()
                    invariant
                        i <= names@.len(),
                        self == CameraRequest::Named(name),
                        forall|j: int|
                            0 <= j < i ==> !same_but_for_case(
                                #[trigger] texts(names@)[j],
                                name@,
                            ),
                    decreases names@.len() - i,
                {
                    assert(texts(names@)[i as int] == names@[i as int]@);
                    if eq_ignore_ascii_case(names[i].as_str(), name) {
                        return Some(i);
                    }
                    i = i + 1;
                }
                None
            },
        }
    }
}

/// A request is met by at most one device.
pub proof fn law_selection_is_unique(
    request: CameraRequest<'_>,
    names: Seq<Seq<char>>,
    i: int,
    j: int,
)
    requires
        request.selects(names, i),
        request.selects(names, j),
    ensures
        i == j,
{
}

/// A request by name is met if and only if some device has the name, whatever the case of its
/// letters.
pub proof fn law_named_camera_is_found(names: Seq<Seq<char>>, name: Seq<char>)
    ensures
        (exists|i: int| #[trigger] is_first_named(names, name, i)) <==> exists|i: int|
            0 <= i < names.len() && same_but_for_case(#[trigger] names[i], name),
{
    if exists|i: int| 0 <= i < names.len() && same_but_for_case(#[trigger] names[i], name) {
        let i = choose|i: int| 0 <= i < names.len() && same_but_for_case(#[trigger] names[i], name);
        lemma_some_first_named(names, name, i);
    }
    if exists|i: int| #[trigger] is_first_named(names, name, i) {
        let i = choose|i: int| #[trigger] is_first_named(names, name, i);
        assert(same_but_for_case(names[i], name));
    }
}

proof fn lemma_some_first_named(names: Seq<Seq<char>>, name: Seq<char>, i: int)
    requires
        0 <= i < names.len(),
        same_but_for_case(names[i], name),
    ensures
        exists|j: int| #[trigger] is_first_named(names, name, j),
    decreases i,
{
    if exists|j: int| 0 <= j < i && same_but_for_case(#[trigger] names[j], name) {
        let j = choose|j: int| 0 <= j < i && same_but_for_case(#[trigger] names[j], name);
        lemma_some_first_named(names, name, j);
    } else {
        assert(is_first_named(names, name, i));
    }
}

/// Two texts count as the same if and only if they are as long as each other and differ at most where
/// one has a letter from A to Z and the other the small form of it.
pub proof fn law_only_the_case_of_letters_is_ignored(a: &str, b: &str, same: bool)
    requires
        call_ensures(eq_ignore_ascii_case, (a, b), same),
    ensures
        same <==> a@.len() == b@.len() && forall|i: int|
            0 <= i < a@.len() ==> {
                let (x, y) = (#[trigger] a@[i], b@[i]);
                ||| x == y
                ||| 'A' <= x && x <= 'Z' && y as int == x as int + 32
                ||| 'A' <= y && y <= 'Z' && x as int == y as int + 32
            },
{
    let alike = |i: int|
        {
            let (x, y) = (a@[i], b@[i]);
            ||| x == y
            ||| 'A' <= x && x <= 'Z' && y as int == x as int + 32
            ||| 'A' <= y && y <= 'Z' && x as int == y as int + 32
        };
    if a@.len() == b@.len() {
        assert forall|i: int| 0 <= i < a@.len() implies (ascii_lower(a@[i]) == ascii_lower(b@[i])
            <==> #[trigger] alike(i)) by {
            lemma_letters_are_alike(a@[i], b@[i]);
        }
        if same {
            assert forall|i: int| 0 <= i < a@.len() implies {
                let (x, y) = (#[trigger] a@[i], b@[i]);
                ||| x == y
                ||| 'A' <= x && x <= 'Z' && y as int == x as int + 32
                ||| 'A' <= y && y <= 'Z' && x as int == y as int + 32
            } by {
                assert(alike(i));
            }
        } else {
            let i = choose|i: int|
                0 <= i < a@.len() && ascii_lower(#[trigger] a@[i]) != ascii_lower(b@[i]);
            assert(!alike(i));
        }
    }
}

proof fn lemma_letters_are_alike(x: char, y: char)
    ensures
        ascii_lower(x) == ascii_lower(y) <==> {
            ||| x == y
            ||| 'A' <= x && x <= 'Z' && y as int == x as int + 32
            ||| 'A' <= y && y <= 'Z' && x as int == y as int + 32
        },
{
}

/// The configuration asks for the dummy camera by its exact name, for a device by any other name, and
/// for the first device without a name.
pub proof fn law_requests_follow_the_configuration(
    camera: Option<String>,
    request: CameraRequest<'_>,
)
    requires
        call_ensures(CameraRequest::new, (&camera,), request),
    ensures
        request is First <==> camera is None,
        request is Dummy <==> (camera matches Some(name) && name@ == "dummy"@),
        request matches CameraRequest::Named(name) ==> name@ == camera->Some_0@,
{
}

/// Without a name the first device is taken, if there is one, and no device stands for the dummy
/// camera.
pub proof fn law_first_device_is_taken_without_a_name(
    request: CameraRequest<'_>,
    names: Vec<String>,
    index: Option<usize>,
)
    requires
        call_ensures(CameraRequest::select, (request, &names), index),
    ensures
        request is First ==> (index is Some <==> names@.len() > 0),
        request is First && index is Some ==> index->Some_0 == 0,
        request is Dummy ==> index is None,
{
    assert(texts(names@).len() == names@.len());
    if request is First && index is None {
        assert(!request.selects(texts(names@), 0));
    }
}

/// A device is taken by its name if and only if one has the name up to the case of its letters, and
/// then it is the first of those.
pub proof fn law_first_device_of_the_name_is_taken(
    request: CameraRequest<'_>,
    name: &str,
    names: Vec<String>,
    index: Option<usize>,
    i: int,
    text: &str,
    same: bool,
)
    requires
        request == CameraRequest::Named(name),
        call_ensures(CameraRequest::select, (request, &names), index),
        0 <= i < names@.len(),
        text@ == names@[i]@,
        call_ensures(eq_ignore_ascii_case, (text, name), same),
    ensures
        same ==> index is Some && index->Some_0 <= i,
        index matches Some(found) ==> found < names@.len() && (found == i ==> same),
{
    let all = texts(names@);
    assert(all.len() == names@.len());
    assert(all[i] == names@[i]@);
    if same {
        lemma_some_first_named(all, name@, i);
        let first = choose|j: int| #[trigger] is_first_named(all, name@, j);
        assert(request.selects(all, first));
        match index {
            Some(found) => {
                law_selection_is_unique(request, all, found as int, first);
                if i < found {
                    assert(!same_but_for_case(all[i], name@));
                }
            },
            None => {
                assert(!request.selects(all, first));
            },
        }
    }
}

} // verus!
