//! Query settings: the optional global values (bounding box, output
//! format, date, diff, augmented diff) that are rendered as a
//! `[key:value]...` header in front of an OverpassQL query.

use vstd::prelude::*;
use vstd::string::*;

verus! {

/// Output format requested from the server.
#[derive(Clone, Copy, PartialEq, Eq, Debug)]
pub enum Format {
    Xml,
    Json,
}

impl Format {
    /// The keyword that names this format inside an `[out:...]` setting.
    pub open spec fn spec_keyword(self) -> Seq<char> {
        match self {
            Format::Xml => "xml"@,
            Format::Json => "json"@,
        }
    }

    pub fn keyword(&self) -> (r: &'static str)
        ensures
            r@ == self.spec_keyword(),
    {
        match self {
            Format::Xml => "xml",
            Format::Json => "json",
        }
    }
}

/// Output verbosity selected by an `out ...;` statement.
#[derive(Clone, Copy, PartialEq, Eq, Debug)]
pub enum Output {
    Ids,
    Skel,
    Body,
    Tags,
    Meta,
    Center,
    Geom,
}

impl Output {
    /// The keyword that names this output level in an `out ...;` statement.
    pub open spec fn spec_keyword(self) -> Seq<char> {
        match self {
            Output::Ids => "ids"@,
            Output::Skel => "skel"@,
            Output::Body => "body"@,
            Output::Tags => "tags"@,
            Output::Meta => "meta"@,
            Output::Center => "center"@,
            Output::Geom => "geom"@,
        }
    }

    pub fn keyword(&self) -> (r: &'static str)
        ensures
            r@ == self.spec_keyword(),
    {
        match self {
            Output::Ids => "ids",
            Output::Skel => "skel",
            Output::Body => "body",
            Output::Tags => "tags",
            Output::Meta => "meta",
            Output::Center => "center",
            Output::Geom => "geom",
        }
    }
}

/// The global settings that may be prepended to a query.
///
/// Each present value becomes one `[key:value]` pair; the rendered
/// header lists the pairs in the fixed order bbox, out, date, diff,
/// adiff.
pub struct Settings {
    pub bbox: Option<String>,
    pub format: Option<Format>,
    pub date: Option<String>,
    pub diff: Option<String>,
    pub adiff: Option<String>,
}

impl Settings {
    pub open spec fn spec_is_empty(self) -> bool {
        &&& self.bbox is None
        &&& self.format is None
        &&& self.date is None
        &&& self.diff is None
        &&& self.adiff is None
    }

    pub open spec fn spec_bbox_part(self) -> Seq<char> {
        match self.bbox {
            Some(v) => "[bbox:"@ + v@ + "]"@,
            None => Seq::<char>::empty(),
        }
    }

    pub open spec fn spec_format_part(self) -> Seq<char> {
        match self.format {
            Some(f) => "[out:"@ + f.spec_keyword() + "]"@,
            None => Seq::<char>::empty(),
        }
    }

    pub open spec fn spec_date_part(self) -> Seq<char> {
        match self.date {
            Some(v) => "[date:"@ + v@ + "]"@,
            None => Seq::<char>::empty(),
        }
    }

    pub open spec fn spec_diff_part(self) -> Seq<char> {
        match self.diff {
            Some(v) => "[diff:"@ + v@ + "]"@,
            None => Seq::<char>::empty(),
        }
    }

    pub open spec fn spec_adiff_part(self) -> Seq<char> {
        match self.adiff {
            Some(v) => "[adiff:"@ + v@ + "]"@,
            None => Seq::<char>::empty(),
        }
    }

    /// The full `[key:value]...` header text for these settings.
    pub open spec fn spec_prefix(self) -> Seq<char> {
        self.spec_bbox_part() + self.spec_format_part() + self.spec_date_part()
            + self.spec_diff_part() + self.spec_adiff_part()
    }

    pub fn new() -> (r: Settings)
        ensures
            r.spec_is_empty(),
    {
        Settings { bbox: None, format: None, date: None, diff: None, adiff: None }
    }

    pub fn is_empty(&self) -> (r: bool)
        ensures
            r == self.spec_is_empty(),
    {
        self.bbox.is_none() && self.format.is_none() && self.date.is_none()
            && self.diff.is_none() && self.adiff.is_none()
    }

    /// Renders the settings as the `[key:value]...` header text.
    #[verifier::rlimit(50)]
    pub fn render(&self) -> (r: String)
        ensures
            r@ == self.spec_prefix(),
    {
        let mut s = String::new();
        if let Some(v) = &self.bbox {
            s.append("[bbox:");
            s.append(v.as_str());
            s.append("]");
        }
        assert(s@ =~= self.spec_bbox_part());
        if let Some(f) = &self.format {
            s.append("[out:");
            s.append(f.keyword());
            s.append("]");
        }
        assert(s@ =~= self.spec_bbox_part() + self.spec_format_part());
        if let Some(v) = &self.date {
            s.append("[date:");
            s.append(v.as_str());
            s.append("]");
        }
        assert(s@ =~= self.spec_bbox_part() + self.spec_format_part()
            + self.spec_date_part());
        if let Some(v) = &self.diff {
            s.append("[diff:");
            s.append(v.as_str());
            s.append("]");
        }
        assert(s@ =~= self.spec_bbox_part() + self.spec_format_part()
            + self.spec_date_part() + self.spec_diff_part());
        if let Some(v) = &self.adiff {
            s.append("[adiff:");
            s.append(v.as_str());
            s.append("]");
        }
        assert(s@ =~= self.spec_prefix());
        s
    }
}

/// The value of a `[bbox:...]` setting: the four coordinates joined by
/// commas, reordered from the command line's lon-lat order to the
/// lat-lon order that OverpassQL expects.
pub fn bbox_value(min_lon: &str, min_lat: &str, max_lon: &str, max_lat: &str) -> (r: String)
    ensures
        r@ == min_lat@ + ","@ + min_lon@ + ","@ + max_lat@ + ","@ + max_lon@,
{
    let mut s = String::new();
    s.append(min_lat);
    s.append(",");
    s.append(min_lon);
    s.append(",");
    s.append(max_lat);
    s.append(",");
    s.append(max_lon);
    assert(s@ =~= min_lat@ + ","@ + min_lon@ + ","@ + max_lat@ + ","@ + max_lon@);
    s
}

/// The value of a `[diff:...]` or `[adiff:...]` setting: the one or two
/// timestamps joined by a comma.
pub fn time_range_value(from: &str, to: Option<&str>) -> (r: String)
    ensures
        match to {
            Some(t) => r@ == from@ + ","@ + t@,
            None => r@ == from@,
        },
{
    let mut s = String::new();
    s.append(from);
    if let Some(t) = to {
        s.append(",");
        s.append(t);
        assert(s@ =~= from@ + ","@ + t@);
    } else {
        assert(s@ =~= from@);
    }
    s
}

} // verus!
