//! The description of an error taxonomy, and the mapping from a variant of it
//! to the record of an occurrence.

use crate::info::record_of;
use crate::info::ErrorInfo;
use crate::info::ErrorInfoView;
use vstd::prelude::*;

verus! {

/// How a variant carries its payload. It decides the form of the pattern that
/// matches the variant and nothing else.
#[derive(Clone, Copy, Debug, PartialEq, Eq)]
pub enum Shape {
    /// No payload.
    Unit,
    /// Positional fields.
    Tuple,
    /// Named fields.
    Struct,
}

/// One variant of a taxonomy.
pub struct VariantDescriptor {
    /// The variant's name, unique in its taxonomy.
    pub name: String,
    /// The variant's shape.
    pub shape: Shape,
    /// The short code; empty where unset.
    pub code: String,
    /// The application code, as text still to be parsed; empty where unset.
    pub app_code: String,
    /// The message for clients; empty where unset.
    pub client_msg: String,
}

/// An error taxonomy: an enumeration of variants under one prefix.
pub struct TaxonomyDescriptor {
    /// The name of the enumeration.
    pub name: String,
    /// The name of the application-code type.
    pub app_type: String,
    /// The prefix of every variant's code.
    pub prefix: String,
    /// The variants, in the order of their declaration.
    pub variants: Vec<VariantDescriptor>,
}

/// One branch of the generated mapping: the pattern that selects a variant and
/// the constants handed to the record's constructor.
pub struct Arm {
    /// The pattern, which matches the variant whatever its payload holds.
    pub pattern: String,
    /// The application code, as text.
    pub app_code: String,
    /// The prefixed code.
    pub code: String,
    /// The configured client message.
    pub client_msg: String,
}

/// A variant as a mathematical value.
pub ghost struct VariantView {
    pub name: Seq<char>,
    pub shape: Shape,
    pub code: Seq<char>,
    pub app_code: Seq<char>,
    pub client_msg: Seq<char>,
}

/// A taxonomy as a mathematical value.
pub ghost struct TaxonomyView {
    pub name: Seq<char>,
    pub app_type: Seq<char>,
    pub prefix: Seq<char>,
    pub variants: Seq<VariantView>,
}

/// A branch as a mathematical value.
pub ghost struct ArmView {
    pub pattern: Seq<char>,
    pub app_code: Seq<char>,
    pub code: Seq<char>,
    pub client_msg: Seq<char>,
}

impl View for VariantDescriptor {
    type V = VariantView;

    open spec fn view(&self) -> VariantView {
        VariantView {
            name: self.name@,
            shape: self.shape,
            code: self.code@,
            app_code: self.app_code@,
            client_msg: self.client_msg@,
        }
    }
}

impl View for TaxonomyDescriptor {
    type V = TaxonomyView;

    open spec fn view(&self) -> TaxonomyView {
        TaxonomyView {
            name: self.name@,
            app_type: self.app_type@,
            prefix: self.prefix@,
            variants: Seq::new(self.variants@.len(), |i: int| self.variants@[i]@),
        }
    }
}

impl View for Arm {
    type V = ArmView;

    open spec fn view(&self) -> ArmView {
        ArmView {
            pattern: self.pattern@,
            app_code: self.app_code@,
            code: self.code@,
            client_msg: self.client_msg@,
        }
    }
}

/// The payload part of a pattern: it names no field.
pub open spec fn payload_wildcard(shape: Shape) -> Seq<char> {
    match shape {
        Shape::Unit => Seq::<char>::empty(),
        Shape::Tuple => seq!['(', '.', '.', ')'],
        Shape::Struct => seq!['{', '.', '.', '}'],
    }
}

/// The pattern that matches a variant of an enumeration: the path of the
/// variant, then the payload wildcard of its shape.
pub open spec fn pattern_of(owner: Seq<char>, name: Seq<char>, shape: Shape) -> Seq<char> {
    owner + seq![':', ':'] + name + payload_wildcard(shape)
}

/// A variant with nothing configured.
pub open spec fn bare_variant(name: Seq<char>, shape: Shape) -> VariantView {
    VariantView {
        name,
        shape,
        code: Seq::<char>::empty(),
        app_code: Seq::<char>::empty(),
        client_msg: Seq::<char>::empty(),
    }
}

impl TaxonomyView {
    /// The code of the variant at `tag`: the prefix, then the variant's own
    /// short code.
    pub open spec fn full_code(self, tag: int) -> Seq<char> {
        self.prefix + self.variants[tag].code
    }

    /// No two variants share a name.
    pub open spec fn names_unique(self) -> bool {
        forall|i: int, j: int|
            0 <= i < j < self.variants.len() ==> self.variants[i].name != self.variants[j].name
    }

    /// Some variant bears this name.
    pub open spec fn has_name(self, name: Seq<char>) -> bool {
        exists|i: int| 0 <= i < self.variants.len() && self.variants[i].name == name
    }

    /// The branch of the mapping that belongs to the variant at `tag`.
    pub open spec fn arm(self, tag: int) -> ArmView {
        let variant = self.variants[tag];
        ArmView {
            pattern: pattern_of(self.name, variant.name, variant.shape),
            app_code: variant.app_code,
            code: self.full_code(tag),
            client_msg: variant.client_msg,
        }
    }

    /// The record of an occurrence of the variant at `tag` with this parsed
    /// application code and this diagnostic text.
    pub open spec fn classification<T>(self, tag: int, app_code: T, text: Seq<char>) -> ErrorInfoView<T> {
        record_of(app_code, self.full_code(tag), self.variants[tag].client_msg, text)
    }
}

impl VariantDescriptor {
    /// A variant with nothing configured: code, application code and client
    /// message are empty.
    pub fn new(name: &str, shape: Shape) -> (variant: Self)
        ensures
            variant@ == bare_variant(name@, shape),
    {
        VariantDescriptor {
            name: name.to_owned(),
            shape,
            code: String::new(),
            app_code: String::new(),
            client_msg: String::new(),
        }
    }

    /// The same variant with this short code.
    pub fn with_code(self, code: &str) -> (variant: Self)
        ensures
            variant@ == (VariantView { code: code@, ..self@ }),
    {
        VariantDescriptor { code: code.to_owned(), ..self }
    }

    /// The same variant with this application code.
    pub fn with_app_code(self, app_code: &str) -> (variant: Self)
        ensures
            variant@ == (VariantView { app_code: app_code@, ..self@ }),
    {
        VariantDescriptor { app_code: app_code.to_owned(), ..self }
    }

    /// The same variant with this client message.
    pub fn with_client_msg(self, client_msg: &str) -> (variant: Self)
        ensures
            variant@ == (VariantView { client_msg: client_msg@, ..self@ }),
    {
        VariantDescriptor { client_msg: client_msg.to_owned(), ..self }
    }

    /// Writes the pattern that matches this variant of the enumeration `owner`.
    pub fn pattern(&self, owner: &str) -> (text: String)
        ensures
            text@ == pattern_of(owner@, self@.name, self@.shape),
    {
        proof {
            reveal_strlit("::");
            reveal_strlit("(..)");
            reveal_strlit("{..}");
        }
        let mut text = owner.to_owned();
        text.append("::");
        assert("::"@ =~= seq![':', ':']);
        text.append(self.name.as_str());
        match self.shape {
            Shape::Unit => {
                assert(text@ =~= pattern_of(owner@, self.name@, self.shape));
            },
            Shape::Tuple => {
                text.append("(..)");
                assert("(..)"@ =~= seq!['(', '.', '.', ')']);
            },
            Shape::Struct => {
                text.append("{..}");
                assert("{..}"@ =~= seq!['{', '.', '.', '}']);
            },
        }
        text
    }
}

impl TaxonomyDescriptor {
    /// A taxonomy without variants.
    pub fn new(name: &str, app_type: &str, prefix: &str) -> (taxonomy: Self)
        ensures
            taxonomy@ == (TaxonomyView {
                name: name@,
                app_type: app_type@,
                prefix: prefix@,
                variants: Seq::<VariantView>::empty(),
            }),
    {
        let taxonomy = TaxonomyDescriptor {
            name: name.to_owned(),
            app_type: app_type.to_owned(),
            prefix: prefix.to_owned(),
            variants: Vec::new(),
        };
        assert(taxonomy@.variants =~= Seq::<VariantView>::empty());
        taxonomy
    }

    /// The same taxonomy with one more variant, declared last.
    pub fn with_variant(self, variant: VariantDescriptor) -> (taxonomy: Self)
        ensures
            taxonomy@ == (TaxonomyView { variants: self@.variants.push(variant@), ..self@ }),
    {
        let mut taxonomy = self;
        taxonomy.variants.push(variant);
        assert(taxonomy@.variants =~= self@.variants.push(variant@));
        taxonomy
    }

    /// Tells whether the variants' names are pairwise distinct.
    pub fn has_unique_names(&self) -> (unique: bool)
        ensures
            unique == self@.names_unique(),
    {
        let n = self.variants.len();
        let mut j: usize = 0;
        while j < n
            invariant
                n == self@.variants.len(),
                j <= n,
                forall|a: int, b: int| 0 <= a < b < j ==> self@.variants[a].name != self@.variants[b].name,
            decreases n - j,
        {
            let mut i: usize = 0;
            while i < j
                invariant
                    n == self@.variants.len(),
                    i <= j < n,
                    forall|a: int| 0 <= a < i ==> self@.variants[a].name != self@.variants[j as int].name,
                decreases j - i,
            {
                if self.variants[i].name == self.variants[j].name {
                    assert(self@.variants[i as int].name == self@.variants[j as int].name);
                    return false;
                }
                i += 1;
            }
            j += 1;
        }
        true
    }

    /// Finds the tag of the variant that bears a name: the first such variant,
    /// or nothing where no variant bears it.
    pub fn find(&self, name: &str) -> (found: Option<usize>)
        ensures
            match found {
                Some(tag) => tag < self@.variants.len() && self@.variants[tag as int].name == name@
                    && forall|i: int| 0 <= i < tag ==> self@.variants[i].name != name@,
                None => !self@.has_name(name@),
            },
    {
        let wanted = name.to_owned();
        let mut i: usize = 0;
        while i < self.variants.len()
            invariant
                i <= self@.variants.len(),
                wanted@ == name@,
                forall|k: int| 0 <= k < i ==> self@.variants[k].name != name@,
            decreases self@.variants.len() - i,
        {
            if self.variants[i].name == wanted {
                return Some(i);
            }
            i += 1;
        }
        None
    }

    /// Composes the code of the variant at `tag`.
    pub fn code_of(&self, tag: usize) -> (code: String)
        requires
            tag < self@.variants.len(),
        ensures
            code@ == self@.full_code(tag as int),
    {
        let mut code = self.prefix.clone();
        code.append(self.variants[tag].code.as_str());
        code
    }

    /// Builds the branch of the mapping for the variant at `tag`.
    pub fn arm(&self, tag: usize) -> (arm: Arm)
        requires
            tag < self@.variants.len(),
        ensures
            arm@ == self@.arm(tag as int),
    {
        let variant = &self.variants[tag];
        Arm {
            pattern: variant.pattern(self.name.as_str()),
            app_code: variant.app_code.clone(),
            code: self.code_of(tag),
            client_msg: variant.client_msg.clone(),
        }
    }

    /// Classifies an occurrence of the variant at `tag`, whose application code
    /// is already parsed: the payload shows only in the diagnostic text.
    pub fn classify<T>(&self, tag: usize, app_code: T, server_msg: &str) -> (info: ErrorInfo<T>)
        requires
            tag < self@.variants.len(),
        ensures
            info@ == self@.classification(tag as int, app_code, server_msg@),
    {
        let code = self.code_of(tag);
        ErrorInfo::new(app_code, code.as_str(), self.variants[tag].client_msg.as_str(), server_msg)
    }

    /// Classifies an occurrence from the outcome of parsing the variant's
    /// application code: a parse failure is handed back and no record is built.
    pub fn classify_parsed<T, E>(&self, tag: usize, parsed: Result<T, E>, server_msg: &str) -> (outcome:
        Result<ErrorInfo<T>, E>)
        requires
            tag < self@.variants.len(),
        ensures
            match parsed {
                Ok(app_code) => outcome matches Ok(info) && info@ == self@.classification(
                    tag as int,
                    app_code,
                    server_msg@,
                ),
                Err(failure) => outcome == Err::<ErrorInfo<T>, E>(failure),
            },
    {
        match parsed {
            Ok(app_code) => Ok(self.classify(tag, app_code, server_msg)),
            Err(failure) => Err(failure),
        }
    }

    /// Classifies an occurrence of the variant at `tag`: parses the variant's
    /// configured application code with `parse`, and builds the record of what
    /// it gave or hands back its failure.
    pub fn try_classify<T, E, F: Fn(&str) -> Result<T, E>>(
        &self,
        tag: usize,
        parse: F,
        server_msg: &str,
    ) -> (outcome: Result<ErrorInfo<T>, E>)
        requires
            tag < self@.variants.len(),
            forall|text: &str| call_requires(parse, (text,)),
        ensures
            match outcome {
                Ok(info) => info@ == self@.classification(tag as int, info.app_code, server_msg@)
                    && exists|text: &str|
                    text@ == self@.variants[tag as int].app_code && #[trigger] call_ensures(
                        parse,
                        (text,),
                        Ok::<T, E>(info.app_code),
                    ),
                Err(failure) => exists|text: &str|
                    text@ == self@.variants[tag as int].app_code && #[trigger] call_ensures(
                        parse,
                        (text,),
                        Err::<T, E>(failure),
                    ),
            },
    {
        let code = self.code_of(tag);
        let variant = &self.variants[tag];
        ErrorInfo::try_new(
            parse,
            variant.app_code.as_str(),
            code.as_str(),
            variant.client_msg.as_str(),
            server_msg,
        )
    }
}

/// Generates the mapping of a taxonomy: one branch for each variant, in the
/// order of declaration, each with the variant's pattern and constants.
pub fn process_error_info(taxonomy: &TaxonomyDescriptor) -> (arms: Vec<Arm>)
    ensures
        arms@.len() == taxonomy@.variants.len(),
        forall|tag: int| 0 <= tag < arms@.len() ==> (#[trigger] arms@[tag])@ == taxonomy@.arm(tag),
{
    let mut arms: Vec<Arm> = Vec::new();
    let mut tag: usize = 0;
    while tag < taxonomy.variants.len()
        invariant
            tag <= taxonomy@.variants.len(),
            arms@.len() == tag,
            forall|k: int| 0 <= k < tag ==> (#[trigger] arms@[k])@ == taxonomy@.arm(k),
        decreases taxonomy@.variants.len() - tag,
    {
        arms.push(taxonomy.arm(tag));
        tag += 1;
    }
    arms
}

} // verus!
