//! The style value model: an ordered list of components, each a kind with
//! an optional parameter, parsed from the configuration's textual form and
//! serialized into the payload that is published to the clipboard.
//!
//! Textual form: components separated by `;`, each written `kind:value`,
//! or just `kind` when the parameter is still to be supplied by a second
//! key press. Empty segments (a trailing `;`, say) are dropped.
use vstd::prelude::*;
use vstd::string::*;

verus! {

/// One field of a composite style value. The parameter may be missing, in
/// which case a follow-up key press is expected to supply it.
pub struct StyleComponent {
    pub kind: String,
    pub value: Option<String>,
}

/// The mathematical shadow of a `StyleComponent`.
pub struct StyleComponentView {
    pub kind: Seq<char>,
    pub value: Option<Seq<char>>,
}

impl View for StyleComponent {
    type V = StyleComponentView;

    open spec fn view(&self) -> StyleComponentView {
        StyleComponentView {
            kind: self.kind@,
            value: match self.value {
                Some(v) => Some(v@),
                None => None,
            },
        }
    }
}

/// The views of a sequence of components.
pub open spec fn comps_view(cs: Seq<StyleComponent>) -> Seq<StyleComponentView> {
    cs.map_values(|c: StyleComponent| c@)
}

/// Whether every component already carries its parameter.
pub open spec fn all_filled(cs: Seq<StyleComponentView>) -> bool {
    forall|i: int| 0 <= i < cs.len() ==> cs[i].value is Some
}

/// The component with its parameter set to `v`.
pub open spec fn filled(c: StyleComponentView, v: Seq<char>) -> StyleComponentView {
    StyleComponentView { kind: c.kind, value: Some(v) }
}

/// The merge policy of the two-phase capture: the first component that is
/// missing its parameter receives `v`; everything else stays as authored.
pub open spec fn fill_first_missing(cs: Seq<StyleComponentView>, v: Seq<char>) -> Seq<
    StyleComponentView,
>
    decreases cs.len(),
{
    if cs.len() == 0 {
        cs
    } else if cs[0].value is None {
        seq![filled(cs[0], v)] + cs.subrange(1, cs.len() as int)
    } else {
        seq![cs[0]] + fill_first_missing(cs.subrange(1, cs.len() as int), v)
    }
}

/// Filling changes nothing when no component is missing its parameter.
pub proof fn lemma_fill_when_all_filled(cs: Seq<StyleComponentView>, v: Seq<char>)
    requires
        all_filled(cs),
    ensures
        fill_first_missing(cs, v) =~= cs,
    decreases cs.len(),
{
    if cs.len() > 0 {
        lemma_fill_when_all_filled(cs.subrange(1, cs.len() as int), v);
    }
}

/// Filling sets exactly the first missing component and keeps the rest.
pub proof fn lemma_fill_first_update(cs: Seq<StyleComponentView>, v: Seq<char>, i: int)
    requires
        0 <= i < cs.len(),
        cs[i].value is None,
        forall|j: int| 0 <= j < i ==> cs[j].value is Some,
    ensures
        fill_first_missing(cs, v) =~= cs.update(i, filled(cs[i], v)),
    decreases cs.len(),
{
    if i > 0 {
        lemma_fill_first_update(cs.subrange(1, cs.len() as int), v, i - 1);
    }
}

/// When exactly one component is missing its parameter, filling leaves
/// every component with a parameter.
pub proof fn lemma_fill_one_missing_all_filled(cs: Seq<StyleComponentView>, v: Seq<char>, i: int)
    requires
        0 <= i < cs.len(),
        cs[i].value is None,
        forall|j: int| 0 <= j < cs.len() && j != i ==> cs[j].value is Some,
    ensures
        all_filled(fill_first_missing(cs, v)),
{
    lemma_fill_first_update(cs, v, i);
}

/// The index of the first occurrence of `c` in `s` at or after `i`, or
/// `s.len()` when there is none.
pub open spec fn find_char(s: Seq<char>, c: char, i: int) -> int
    decreases s.len() - i,
{
    if i < 0 || i >= s.len() {
        s.len() as int
    } else if s[i] == c {
        i
    } else {
        find_char(s, c, i + 1)
    }
}

proof fn lemma_find_char_bounds(s: Seq<char>, c: char, i: int)
    requires
        0 <= i <= s.len(),
    ensures
        i <= find_char(s, c, i) <= s.len(),
    decreases s.len() - i,
{
    if i < s.len() && s[i] != c {
        lemma_find_char_bounds(s, c, i + 1);
    }
}

/// One segment of the textual style form: the part before the first `:`
/// is the kind; a nonempty part after it is the parameter.
pub open spec fn component_of_segment(seg: Seq<char>) -> StyleComponentView {
    let j = find_char(seg, ':', 0);
    if j == seg.len() {
        StyleComponentView { kind: seg, value: None }
    } else if j + 1 == seg.len() {
        StyleComponentView { kind: seg.subrange(0, j), value: None }
    } else {
        StyleComponentView { kind: seg.subrange(0, j), value: Some(seg.subrange(j + 1, seg.len() as int)) }
    }
}

/// The components of the textual style form: `;`-separated segments,
/// empty segments dropped.
pub open spec fn parse_components(s: Seq<char>) -> Seq<StyleComponentView>
    decreases s.len(),
{
    if s.len() == 0 {
        Seq::empty()
    } else {
        let k = find_char(s, ';', 0);
        if 0 <= k < s.len() {
            let seg = s.subrange(0, k);
            let head: Seq<StyleComponentView> = if seg.len() == 0 {
                Seq::empty()
            } else {
                seq![component_of_segment(seg)]
            };
            head + parse_components(s.subrange(k + 1, s.len() as int))
        } else {
            seq![component_of_segment(s)]
        }
    }
}

/// The serialized form of one component.
pub open spec fn comp_payload(c: StyleComponentView) -> Seq<char> {
    match c.value {
        Some(v) => c.kind + seq![':'] + v,
        None => c.kind,
    }
}

/// The serialized form of the first `i` components, joined with `;`.
pub open spec fn payload_upto(cs: Seq<StyleComponentView>, i: int) -> Seq<char>
    decreases i,
{
    if i <= 0 {
        Seq::empty()
    } else if i == 1 {
        comp_payload(cs[0])
    } else {
        payload_upto(cs, i - 1) + seq![';'] + comp_payload(cs[i - 1])
    }
}

/// The published payload: the components serialized in order.
pub open spec fn style_payload(cs: Seq<StyleComponentView>) -> Seq<char> {
    payload_upto(cs, cs.len() as int)
}

impl StyleComponent {
    /// Whether this component still needs a parameter.
    pub fn missing_param(&self) -> (r: bool)
        ensures
            r == (self@.value is None),
    {
        self.value.is_none()
    }

    /// This component with its parameter set to `v`.
    pub fn set(&self, v: &str) -> (r: StyleComponent)
        ensures
            r@ == filled(self@, v@),
    {
        StyleComponent { kind: self.kind.clone(), value: Some(String::from_str(v)) }
    }

    /// An identical copy.
    pub fn duplicate(&self) -> (r: StyleComponent)
        ensures
            r@ == self@,
    {
        StyleComponent {
            kind: self.kind.clone(),
            value: match &self.value {
                Some(v) => Some(v.clone()),
                None => None,
            },
        }
    }
}

/// The index of the first occurrence of `c` in `s` at or after `start`,
/// or the length of `s` when there is none.
fn find_char_at(s: &str, c: char, start: usize) -> (r: usize)
    requires
        start <= s@.len(),
    ensures
        r == find_char(s@, c, start as int),
        r <= s@.len(),
{
    proof {
        lemma_find_char_bounds(s@, c, start as int);
    }
    let n = s.unicode_len();
    let mut i = start;
    while i < n
        invariant
            start <= i <= n,
            n == s@.len(),
            find_char(s@, c, start as int) == find_char(s@, c, i as int),
        decreases n - i,
    {
        if s.get_char(i) == c {
            return i;
        }
        i = i + 1;
    }
    n
}

/// Parses one nonempty segment of the textual style form.
fn parse_segment(seg: &str) -> (r: StyleComponent)
    ensures
        r@ == component_of_segment(seg@),
{
    let n = seg.unicode_len();
    let j = find_char_at(seg, ':', 0);
    if j == n {
        StyleComponent { kind: String::from_str(seg), value: None }
    } else if j + 1 == n {
        StyleComponent { kind: String::from_str(seg.substring_char(0, j)), value: None }
    } else {
        StyleComponent {
            kind: String::from_str(seg.substring_char(0, j)),
            value: Some(String::from_str(seg.substring_char(j + 1, n))),
        }
    }
}

proof fn lemma_comps_view_concat(a: Seq<StyleComponent>, b: Seq<StyleComponent>)
    ensures
        comps_view(a + b) =~= comps_view(a) + comps_view(b),
{
}

/// Parses the textual style form into its ordered components.
pub fn parse_style_list(s: &str) -> (r: Vec<StyleComponent>)
    ensures
        comps_view(r@) == parse_components(s@),
    decreases s@.len(),
{
    let n = s.unicode_len();
    let mut out: Vec<StyleComponent> = Vec::new();
    if n == 0 {
        assert(comps_view(out@) =~= parse_components(s@));
        return out;
    }
    let k = find_char_at(s, ';', 0);
    if k < n {
        let seg = s.substring_char(0, k);
        if k > 0 {
            out.push(parse_segment(seg));
        }
        let rest = s.substring_char(k + 1, n);
        let mut rest_comps = parse_style_list(rest);
        proof {
            lemma_comps_view_concat(out@, rest_comps@);
        }
        out.append(&mut rest_comps);
        proof {
            let ghost head: Seq<StyleComponentView> = if k == 0 {
                Seq::empty()
            } else {
                seq![component_of_segment(s@.subrange(0, k as int))]
            };
            assert(comps_view(out@) =~= head + parse_components(s@.subrange(k + 1, s@.len() as int)));
            assert(comps_view(out@) =~= parse_components(s@));
        }
    } else {
        out.push(parse_segment(s));
        assert(comps_view(out@) =~= seq![component_of_segment(s@)]);
    }
    out
}

/// Whether every component of the list already carries its parameter.
pub fn all_params_present(cs: &Vec<StyleComponent>) -> (r: bool)
    ensures
        r == all_filled(comps_view(cs@)),
{
    let mut i: usize = 0;
    while i < cs.len()
        invariant
            i <= cs@.len(),
            forall|j: int| 0 <= j < i ==> comps_view(cs@)[j].value is Some,
        decreases cs@.len() - i,
    {
        if cs[i].value.is_none() {
            assert(comps_view(cs@)[i as int].value is None);
            return false;
        }
        i = i + 1;
    }
    true
}

/// The list with its first missing parameter set to `v`; unchanged when no
/// parameter is missing.
pub fn fill_first_missing_vec(cs: &Vec<StyleComponent>, v: &str) -> (r: Vec<StyleComponent>)
    ensures
        comps_view(r@) == fill_first_missing(comps_view(cs@), v@),
{
    let n = cs.len();
    let mut idx: usize = 0;
    let mut found = false;
    while idx < n && !found
        invariant
            idx <= n,
            n == cs@.len(),
            !found ==> forall|j: int| 0 <= j < idx ==> comps_view(cs@)[j].value is Some,
            found ==> idx < n && comps_view(cs@)[idx as int].value is None && forall|j: int|
                0 <= j < idx ==> comps_view(cs@)[j].value is Some,
        decreases n - idx + (if found { 0int } else { 1int }),
    {
        if cs[idx].value.is_none() {
            assert(comps_view(cs@)[idx as int].value is None);
            found = true;
        } else {
            idx = idx + 1;
        }
    }
    let ghost target: Seq<StyleComponentView> = if found {
        comps_view(cs@).update(idx as int, filled(comps_view(cs@)[idx as int], v@))
    } else {
        comps_view(cs@)
    };
    proof {
        if found {
            lemma_fill_first_update(comps_view(cs@), v@, idx as int);
        } else {
            lemma_fill_when_all_filled(comps_view(cs@), v@);
        }
    }
    let mut out: Vec<StyleComponent> = Vec::new();
    let mut j: usize = 0;
    while j < n
        invariant
            j <= n,
            n == cs@.len(),
            target.len() == n,
            found ==> idx < n && comps_view(cs@)[idx as int].value is None,
            out@.len() == j,
            target == (if found {
                comps_view(cs@).update(idx as int, filled(comps_view(cs@)[idx as int], v@))
            } else {
                comps_view(cs@)
            }),
            comps_view(out@) =~= target.subrange(0, j as int),
        decreases n - j,
    {
        let ghost before = out@;
        if found && j == idx {
            out.push(cs[j].set(v));
        } else {
            out.push(cs[j].duplicate());
        }
        proof {
            assert(comps_view(cs@)[j as int] == cs@[j as int]@);
            assert(out@[j as int]@ == target[j as int]);
            assert forall|t: int| 0 <= t <= j implies comps_view(out@)[t] == target[t] by {
                if t < j {
                    assert(comps_view(before)[t] == target.subrange(0, j as int)[t]);
                }
            }
            assert(comps_view(out@) =~= target.subrange(0, j + 1));
        }
        j = j + 1;
    }
    assert(comps_view(out@) =~= target);
    out
}

/// Serializes the components, in order, into the published payload.
pub fn style_payload_string(cs: &Vec<StyleComponent>) -> (r: String)
    ensures
        r@ == style_payload(comps_view(cs@)),
{
    let mut out = String::new();
    let mut i: usize = 0;
    while i < cs.len()
        invariant
            i <= cs@.len(),
            out@ == payload_upto(comps_view(cs@), i as int),
        decreases cs@.len() - i,
    {
        if i > 0 {
            out.append(";");
            proof {
                reveal_strlit(";");
                assert(";"@ =~= seq![';']);
            }
        }
        let c = &cs[i];
        out.append(c.kind.as_str());
        match &c.value {
            Some(v) => {
                out.append(":");
                proof {
                    reveal_strlit(":");
                    assert(":"@ =~= seq![':']);
                }
                out.append(v.as_str());
            },
            None => {},
        }
        assert(out@ =~= payload_upto(comps_view(cs@), i + 1));
        i = i + 1;
    }
    out
}

} // verus!
