//! The interactive prompt's data handling: which field a prompt stands
//! for, validation of an answer, and filing an answer into the collected
//! export data, including the comma-split-and-trim of collection lists.
//! Reading and printing stay with the caller.
use vstd::prelude::*;
use vstd::string::*;


verus! {

/// Which detail of the export a prompt asks for.
#[derive(Clone, Copy, PartialEq, Eq, Structural, Debug)]
pub enum ExportInfoType {
    SourceDatabaseName,
    SourceDatabaseConnString,
    DestinationDatabaseName,
    DestinationDatabaseConnString,
    ExcludeCollections,
    IncludeCollections,
    UserName,
    Email,
}

/// The details collected for a new export.
pub struct ExportData {
    pub source_db_name: Option<String>,
    pub source_db_uri: Option<String>,
    pub destination_db_name: Option<String>,
    pub destination_db_uri: Option<String>,
    pub exclude_collections: Vec<String>,
    pub include_collections: Vec<String>,
    pub user_name: Option<String>,
    pub email: Option<String>,
}

pub ghost struct ExportDataV {
    pub source_db_name: Option<Seq<char>>,
    pub source_db_uri: Option<Seq<char>>,
    pub destination_db_name: Option<Seq<char>>,
    pub destination_db_uri: Option<Seq<char>>,
    pub exclude_collections: Seq<Seq<char>>,
    pub include_collections: Seq<Seq<char>>,
    pub user_name: Option<Seq<char>>,
    pub email: Option<Seq<char>>,
}

impl View for ExportData {
    type V = ExportDataV;

    open spec fn view(&self) -> ExportDataV {
        ExportDataV {
            source_db_name: match self.source_db_name {
                Some(ref s) => Some(s@),
                None => None,
            },
            source_db_uri: match self.source_db_uri {
                Some(ref s) => Some(s@),
                None => None,
            },
            destination_db_name: match self.destination_db_name {
                Some(ref s) => Some(s@),
                None => None,
            },
            destination_db_uri: match self.destination_db_uri {
                Some(ref s) => Some(s@),
                None => None,
            },
            exclude_collections: self.exclude_collections.deep_view(),
            include_collections: self.include_collections.deep_view(),
            user_name: match self.user_name {
                Some(ref s) => Some(s@),
                None => None,
            },
            email: match self.email {
                Some(ref s) => Some(s@),
                None => None,
            },
        }
    }
}

impl Default for ExportData {
    /// All details unanswered, both collection lists empty.
    fn default() -> (r: ExportData)
        ensures
            r@.source_db_name is None,
            r@.source_db_uri is None,
            r@.destination_db_name is None,
            r@.destination_db_uri is None,
            r@.exclude_collections =~= Seq::<Seq<char>>::empty(),
            r@.include_collections =~= Seq::<Seq<char>>::empty(),
            r@.user_name is None,
            r@.email is None,
    {
        ExportData {
            source_db_name: None,
            source_db_uri: None,
            destination_db_name: None,
            destination_db_uri: None,
            exclude_collections: Vec::new(),
            include_collections: Vec::new(),
            user_name: None,
            email: None,
        }
    }
}

/// One prompt: its text, the answer so far, the field it stands for, and
/// whether an answer is required.
pub struct ExportArgInput {
    pub prompt_text: String,
    pub user_input: String,
    pub info_type: ExportInfoType,
    pub required: bool,
}

/// ASCII whitespace, as the collection-list trimming understands it.
pub open spec fn spec_is_space(c: char) -> bool {
    c == ' ' || c == '\t' || c == '\n' || c == '\r'
}

pub open spec fn spec_trim_start(s: Seq<char>) -> Seq<char>
    decreases s.len(),
{
    if s.len() > 0 && spec_is_space(s[0]) {
        spec_trim_start(s.drop_first())
    } else {
        s
    }
}

pub open spec fn spec_trim_end(s: Seq<char>) -> Seq<char>
    decreases s.len(),
{
    if s.len() > 0 && spec_is_space(s.last()) {
        spec_trim_end(s.drop_last())
    } else {
        s
    }
}

/// The string without leading and trailing whitespace.
pub open spec fn spec_trim(s: Seq<char>) -> Seq<char> {
    spec_trim_end(spec_trim_start(s))
}

/// Trims leading and trailing whitespace from a string slice.
pub fn trim_spaces(s: &str) -> (r: String)
    ensures
        r@ == spec_trim(s@),
{
    let n: usize = s.unicode_len();
    proof {
        assert(s@.skip(0) =~= s@);
    }
    let mut a: usize = 0;
    while a < n && (s.get_char(a) == ' ' || s.get_char(a) == '\t' || s.get_char(a) == '\n'
        || s.get_char(a) == '\r')
        invariant
            a <= n,
            n == s@.len(),
            spec_trim_start(s@) == spec_trim_start(s@.skip(a as int)),
        decreases n - a,
    {
        proof {
            assert(s@.skip(a as int)[0] == s@[a as int]);
            assert(s@.skip(a as int).drop_first() =~= s@.skip(a + 1));
        }
        a = a + 1;
    }
    proof {
        assert(s@.skip(a as int).len() > 0 ==> s@.skip(a as int)[0] == s@[a as int]);
        assert(spec_trim_start(s@) == s@.skip(a as int));
    }
    proof {
        assert(s@.skip(a as int).take(n - a as int) =~= s@.skip(a as int));
    }
    let mut b: usize = n;
    while b > a && (s.get_char(b - 1) == ' ' || s.get_char(b - 1) == '\t' || s.get_char(b - 1)
        == '\n' || s.get_char(b - 1) == '\r')
        invariant
            a <= b <= n,
            n == s@.len(),
            spec_trim_start(s@) == s@.skip(a as int),
            spec_trim_end(s@.skip(a as int)) == spec_trim_end(
                s@.skip(a as int).take(b - a as int),
            ),
        decreases b,
    {
        proof {
            let t = s@.skip(a as int).take(b - a as int);
            assert(t.last() == s@[b - 1]);
            assert(t.drop_last() =~= s@.skip(a as int).take(b - 1 - a as int));
        }
        b = b - 1;
    }
    proof {
        let t = s@.skip(a as int).take(b - a as int);
        assert(t.len() > 0 ==> t.last() == s@[b - 1]);
        assert(spec_trim_end(s@.skip(a as int)) == t);
    }
    let piece = s.substring_char(a, b);
    proof {
        assert(piece@ =~= s@.skip(a as int).take(b - a as int));
    }
    String::from_str(piece)
}

/// Index of the first comma, or the length when there is none.
pub open spec fn spec_find_comma(s: Seq<char>) -> int
    decreases s.len(),
{
    if s.len() == 0 {
        0
    } else if s[0] == ',' {
        0
    } else {
        1 + spec_find_comma(s.drop_first())
    }
}

pub proof fn lemma_find_comma_bounds(s: Seq<char>)
    ensures
        0 <= spec_find_comma(s) <= s.len(),
        forall|i: int| 0 <= i < spec_find_comma(s) ==> s[i] != ',',
        spec_find_comma(s) < s.len() ==> s[spec_find_comma(s)] == ',',
    decreases s.len(),
{
    if s.len() > 0 && s[0] != ',' {
        lemma_find_comma_bounds(s.drop_first());
        assert forall|i: int| 0 <= i < spec_find_comma(s) implies s[i] != ',' by {
            if i > 0 {
                assert(s.drop_first()[i - 1] == s[i]);
            }
        }
        if spec_find_comma(s) < s.len() {
            assert(s.drop_first()[spec_find_comma(s) - 1] == s[spec_find_comma(s)]);
        }
    }
}

#[via_fn]
proof fn split_commas_decreases(s: Seq<char>) {
    lemma_find_comma_bounds(s);
}

/// The comma-separated pieces of a string, commas removed; a string
/// without commas is one piece, so the result is never empty.
pub open spec fn spec_split_commas(s: Seq<char>) -> Seq<Seq<char>>
    decreases s.len() via split_commas_decreases
{
    if spec_find_comma(s) >= s.len() {
        seq![s]
    } else {
        seq![s.take(spec_find_comma(s))] + spec_split_commas(s.skip(spec_find_comma(s) + 1))
    }
}

/// Splits at commas and trims each piece, as a collection list typed as
/// one comma-separated line is filed.
pub fn split_and_trim_commas(s: &str) -> (r: Vec<String>)
    ensures
        r.deep_view() == spec_split_commas(s@).map_values(|p: Seq<char>| spec_trim(p)),
{
    let n: usize = s.unicode_len();
    let mut r: Vec<String> = Vec::new();
    proof {
        assert(s@.skip(0) =~= s@);
    }
    let mut start: usize = 0;
    loop
        invariant_except_break
            start <= n,
            n == s@.len(),
            spec_split_commas(s@).map_values(|p: Seq<char>| spec_trim(p)) =~= r.deep_view()
                + spec_split_commas(s@.skip(start as int)).map_values(|p: Seq<char>| spec_trim(p)),
        ensures
            r.deep_view() =~= spec_split_commas(s@).map_values(|p: Seq<char>| spec_trim(p)),
        decreases n - start,
    {
        let mut d: usize = start;
        while d < n && s.get_char(d) != ','
            invariant
                start <= d <= n,
                n == s@.len(),
                forall|j: int| start <= j < d ==> s@[j] != ',',
            decreases n - d,
        {
            d = d + 1;
        }
        proof {
            lemma_find_comma_bounds(s@.skip(start as int));
            assert(forall|j: int|
                0 <= j < s@.skip(start as int).len() ==> s@.skip(start as int)[j] == s@[j
                    + start]);
            assert(spec_find_comma(s@.skip(start as int)) == d - start) by {
                if spec_find_comma(s@.skip(start as int)) < d - start {
                    assert(s@[spec_find_comma(s@.skip(start as int)) + start] == ',');
                }
                if d - start < spec_find_comma(s@.skip(start as int)) {
                    assert(s@.skip(start as int)[d - start as int] == ',');
                }
            }
        }
        let piece = s.substring_char(start, d);
        let trimmed = trim_spaces(piece);
        let ghost pre = r.deep_view();
        r.push(trimmed);
        proof {
            let rest = s@.skip(start as int);
            assert(piece@ =~= rest.take(d - start as int));
            assert(r.deep_view() =~= pre.push(spec_trim(piece@)));
        }
        if d < n {
            proof {
                let rest = s@.skip(start as int);
                assert(rest.skip(d - start + 1) =~= s@.skip(d + 1));
                assert(spec_split_commas(rest).map_values(|p: Seq<char>| spec_trim(p))
                    =~= seq![spec_trim(piece@)] + spec_split_commas(s@.skip(d + 1)).map_values(
                    |p: Seq<char>| spec_trim(p),
                ));
            }
            start = d + 1;
        } else {
            proof {
                let rest = s@.skip(start as int);
                assert(rest.take(d - start as int) =~= rest);
                assert(spec_split_commas(rest).map_values(|p: Seq<char>| spec_trim(p))
                    =~= seq![spec_trim(piece@)]);
            }
            break ;
        }
    }
    r
}

impl ExportArgInput {
    /// Whether the typed answer is acceptable: a required field must hold
    /// more than one character (a lone line break is an empty answer).
    pub fn validate(&self, input: String) -> (r: bool)
        ensures
            r == !(self.required && input@.len() <= 1),
    {
        if self.required && input.as_str().unicode_len() <= 1 {
            return false;
        }
        true
    }

    /// The label of the field this prompt asks for.
    pub fn input_field(&self) -> (r: &'static str)
        ensures
            self.info_type is SourceDatabaseName ==> r@ == "source database name"@,
            self.info_type is SourceDatabaseConnString ==> r@
                == "source database connection string"@,
            self.info_type is DestinationDatabaseName ==> r@ == "destination database name"@,
            self.info_type is DestinationDatabaseConnString ==> r@
                == "destination database connection string"@,
            self.info_type is IncludeCollections ==> r@ == "collections to include"@,
            self.info_type is ExcludeCollections ==> r@ == "collections to exclude"@,
            self.info_type is UserName ==> r@ == "user name"@,
            self.info_type is Email ==> r@ == "user email"@,
    {
        match self.info_type {
            ExportInfoType::SourceDatabaseName => "source database name",
            ExportInfoType::SourceDatabaseConnString => "source database connection string",
            ExportInfoType::DestinationDatabaseName => "destination database name",
            ExportInfoType::DestinationDatabaseConnString => {
                "destination database connection string"
            },
            ExportInfoType::IncludeCollections => "collections to include",
            ExportInfoType::ExcludeCollections => "collections to exclude",
            ExportInfoType::UserName => "user name",
            ExportInfoType::Email => "user email",
        }
    }

    /// Files the typed answer into the collected export data: plain
    /// fields take the answer as it is; the two collection lists are
    /// split at commas and trimmed.
    pub fn set_export_data_value(&self, export_data: &mut ExportData)
        ensures
            self.info_type is SourceDatabaseName ==> final(export_data)@ == (ExportDataV {
                source_db_name: Some(self.user_input@),
                ..old(export_data)@
            }),
            self.info_type is SourceDatabaseConnString ==> final(export_data)@ == (ExportDataV {
                source_db_uri: Some(self.user_input@),
                ..old(export_data)@
            }),
            self.info_type is DestinationDatabaseName ==> final(export_data)@ == (ExportDataV {
                destination_db_name: Some(self.user_input@),
                ..old(export_data)@
            }),
            self.info_type is DestinationDatabaseConnString ==> final(export_data)@
                == (ExportDataV {
                destination_db_uri: Some(self.user_input@),
                ..old(export_data)@
            }),
            self.info_type is IncludeCollections ==> final(export_data)@ == (ExportDataV {
                include_collections: spec_split_commas(self.user_input@).map_values(
                    |p: Seq<char>| spec_trim(p),
                ),
                ..old(export_data)@
            }),
            self.info_type is ExcludeCollections ==> final(export_data)@ == (ExportDataV {
                exclude_collections: spec_split_commas(self.user_input@).map_values(
                    |p: Seq<char>| spec_trim(p),
                ),
                ..old(export_data)@
            }),
            self.info_type is UserName ==> final(export_data)@ == (ExportDataV {
                user_name: Some(self.user_input@),
                ..old(export_data)@
            }),
            self.info_type is Email ==> final(export_data)@ == (ExportDataV {
                email: Some(self.user_input@),
                ..old(export_data)@
            }),
    {
        match self.info_type {
            ExportInfoType::SourceDatabaseName => {
                export_data.source_db_name = Some(self.user_input.clone());
            },
            ExportInfoType::SourceDatabaseConnString => {
                export_data.source_db_uri = Some(self.user_input.clone());
            },
            ExportInfoType::DestinationDatabaseName => {
                export_data.destination_db_name = Some(self.user_input.clone());
            },
            ExportInfoType::DestinationDatabaseConnString => {
                export_data.destination_db_uri = Some(self.user_input.clone());
            },
            ExportInfoType::IncludeCollections => {
                export_data.include_collections = split_and_trim_commas(self.user_input.as_str());
            },
            ExportInfoType::ExcludeCollections => {
                export_data.exclude_collections = split_and_trim_commas(self.user_input.as_str());
            },
            ExportInfoType::UserName => {
                export_data.user_name = Some(self.user_input.clone());
            },
            ExportInfoType::Email => {
                export_data.email = Some(self.user_input.clone());
            },
        }
    }
}

} // verus!
