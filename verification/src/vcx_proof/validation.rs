//! Checks on a proof that need no cryptography, and the documents that the
//! cryptographic check is given.

use vstd::prelude::*;
use vstd::string::{StringExecFns, StringSliceAdditionalSpecFns};
use vstd::utf8::encode_utf8;

use crate::error::{VcxError, VcxErrorKind, VcxResult};
use crate::messages::proofs::proof_message::{
    credential_info, get_credential_info, CredInfo, CredInfoView,
};
use crate::utils::decimal::{decimal_string, decimal_text, parsed_u32};
use crate::utils::encoding::{digest_encoding, encode};
use crate::utils::json::{json_parsed, json_text, JsonDoc, JsonValue};
use crate::utils::text::{clone_opt_text, text_eq};
use crate::vcx_proof::Proof;

verus! {

/// The encoding that a revealed attribute with the raw value `raw` must
/// have.
pub open spec fn expected_encoding(raw: Seq<char>) -> Seq<char> {
    match parsed_u32(raw) {
        Some(number) => decimal_text(number as nat),
        None => digest_encoding(encode_utf8(raw)),
    }
}

/// Whether a revealed attribute is consistent: it has a raw and an encoded
/// value, both strings, and the encoded value is the encoding of the raw one.
pub open spec fn attribute_holds(info: JsonDoc) -> bool {
    &&& info.member("raw"@) is Text
    &&& info.member("encoded"@) is Text
    &&& info.member("encoded"@)->Text_0 == expected_encoding(info.member("raw"@)->Text_0)
}

/// The revealed attributes of a proof.
pub open spec fn revealed_attrs(proof: JsonDoc) -> JsonDoc {
    proof.member("requested_proof"@).member("revealed_attrs"@)
}

/// Whether all revealed attributes of a proof are consistent; true where the
/// proof reveals none.
pub open spec fn revealed_attributes_hold(proof: JsonDoc) -> bool {
    match revealed_attrs(proof) {
        JsonDoc::Object(attrs) => forall|referent: Seq<char>| #[trigger]
            attrs.contains_key(referent) ==> attribute_holds(attrs[referent]),
        _ => true,
    }
}

/// Whether the encoding that a revealed attribute must have needs no digest:
/// its raw value, where it has one, reads as a number.
pub open spec fn needs_no_digest(info: JsonDoc) -> bool {
    info.member("raw"@) is Text ==> parsed_u32(info.member("raw"@)->Text_0) is Some
}

/// Whether none of the revealed attributes of a proof needs a digest; true
/// where the proof reveals none.
pub open spec fn revealed_attributes_need_no_digest(proof: JsonDoc) -> bool {
    match revealed_attrs(proof) {
        JsonDoc::Object(attrs) => forall|referent: Seq<char>| #[trigger]
            attrs.contains_key(referent) ==> needs_no_digest(attrs[referent]),
        _ => true,
    }
}

/// The check of one revealed attribute, `encoded` being the encoding that
/// was computed for its raw value or the failure to compute it.
///
/// Fails with `InvalidProof` where the attribute has no raw or no encoded
/// value or the encoded value differs from `encoded`, and with the failure
/// of the computation.
pub fn check_revealed_attribute(info: &JsonValue, encoded: VcxResult<String>) -> (checked: VcxResult<
    (),
>)
    ensures
        match encoded {
            Ok(expected) => if info@.member("raw"@) is Text && info@.member("encoded"@) is Text
                && info@.member("encoded"@)->Text_0 == expected@ {
                checked is Ok
            } else {
                checked is Err && checked->Err_0.kind() == VcxErrorKind::InvalidProof
            },
            Err(failure) => checked is Err && checked->Err_0.kind() == if info@.member("raw"@) is Text
                && info@.member("encoded"@) is Text {
                failure.kind()
            } else {
                VcxErrorKind::InvalidProof
            },
        },
{
    let raw_is_text = match info.get("raw") {
        Some(raw) => raw.as_str().is_some(),
        None => false,
    };
    if !raw_is_text {
        return Err(VcxError::from_msg(VcxErrorKind::InvalidProof, "Cannot get raw value"));
    }
    let claimed = match info.get("encoded") {
        Some(member) => member.as_str(),
        None => None,
    };
    match claimed {
        None => Err(VcxError::from_msg(VcxErrorKind::InvalidProof, "Cannot get encoded value")),
        Some(claimed) => match encoded {
            Err(failure) => Err(failure),
            Ok(expected) => if text_eq(expected.as_str(), claimed) {
                Ok(())
            } else {
                Err(VcxError::from_msg(VcxErrorKind::InvalidProof, "Encoded values are different"))
            },
        },
    }
}

/// The raw value of a revealed attribute, or the empty text where it has
/// none.
fn raw_value(info: &JsonValue) -> (raw: &str)
    ensures
        info@.member("raw"@) is Text ==> raw@ == info@.member("raw"@)->Text_0,
{
    match info.get("raw") {
        Some(member) => match member.as_str() {
            Some(raw) => raw,
            None => "",
        },
        None => "",
    }
}

/// Checks the revealed attributes of the proof `proof`.
///
/// Succeeds only where all of them are consistent, and fails with
/// `InvalidProof` only where one of them is not. Where no attribute needs a
/// digest, and so where the proof reveals none, that is all: the check
/// succeeds exactly where all attributes are consistent. Where a digest is
/// needed the check can also fail with `EncodeError`, when OpenSSL cannot
/// compute an encoding.
pub fn check_revealed_attributes(proof: &JsonValue) -> (checked: VcxResult<()>)
    ensures
        checked is Ok ==> revealed_attributes_hold(proof@),
        checked matches Err(failure) ==> failure.kind() == VcxErrorKind::InvalidProof
            || failure.kind() == VcxErrorKind::EncodeError,
        checked matches Err(failure) ==> (failure.kind() == VcxErrorKind::InvalidProof
            ==> !revealed_attributes_hold(proof@)),
        revealed_attributes_need_no_digest(proof@) ==> (checked is Ok
            <==> revealed_attributes_hold(proof@)),
        revealed_attributes_need_no_digest(proof@) ==> (checked matches Err(failure)
            ==> failure.kind() == VcxErrorKind::InvalidProof),
{
    let revealed = match proof.get("requested_proof") {
        Some(requested) => requested.get("revealed_attrs"),
        None => None,
    };
    let revealed = match revealed {
        Some(revealed) => revealed,
        None => {
            return Ok(());
        },
    };
    assert(revealed@ == revealed_attrs(proof@));
    let attrs = revealed.members();
    let mut i: usize = 0;
    while i < attrs.len()
        invariant
            i <= attrs.len(),
            revealed@ == revealed_attrs(proof@),
            forall|k: int|
                0 <= k < attrs@.len() ==> revealed@ is Object && (
                #[trigger] revealed@->Object_0.contains_key(attrs@[k].0@))
                    && revealed@->Object_0[attrs@[k].0@] == attrs@[k].1@,
            forall|name: Seq<char>|
                revealed@ is Object && #[trigger] revealed@->Object_0.contains_key(name)
                    ==> exists|k: int| 0 <= k < attrs@.len() && attrs@[k].0@ == name,
            forall|k: int| 0 <= k < i ==> attribute_holds(attrs@[k].1@),
        decreases attrs.len() - i,
    {
        let info = attrs[i].1;
        let raw = raw_value(info);
        let encoded = encode(raw);
        match check_revealed_attribute(info, encoded) {
            Ok(_) => {
                assert(attribute_holds(info@));
            },
            Err(failure) => {
                proof {
                    assert(revealed@->Object_0.contains_key(attrs@[i as int].0@));
                    if failure.kind() == VcxErrorKind::InvalidProof {
                        assert(!attribute_holds(info@));
                    } else {
                        assert(!needs_no_digest(info@));
                    }
                }
                return Err(failure);
            },
        }
        i += 1;
    }
    proof {
        if revealed@ is Object {
            assert forall|referent: Seq<char>| #[trigger]
                revealed@->Object_0.contains_key(referent) implies attribute_holds(
                revealed@->Object_0[referent],
            ) by {
                let k = choose|k: int| 0 <= k < attrs@.len() && attrs@[k].0@ == referent;
                assert(revealed@->Object_0.contains_key(attrs@[k].0@));
            }
        }
    }
    Ok(())
}

/// What the ledger holds under an identifier: the identifier under which it
/// holds it, the document as JSON text, and the time the document is of.
#[derive(Debug, Clone, PartialEq)]
pub struct LedgerDocument {
    pub id: String,
    pub json: String,
    pub timestamp: u64,
}

/// The answer of the ledger to one question: what was asked for, at which
/// time where a time matters, and what came back.
#[derive(Debug, PartialEq)]
pub struct LedgerAnswer {
    pub requested: String,
    pub timestamp: Option<u64>,
    pub outcome: VcxResult<LedgerDocument>,
}

/// What the ledger holds under an identifier, once its JSON text was read:
/// the document is missing where the text was no JSON.
#[derive(Debug, PartialEq)]
pub struct LedgerEntry {
    pub id: String,
    pub document: Option<JsonValue>,
    pub timestamp: u64,
}

/// What a `LedgerEntry` is: its value, with texts as sequences of characters.
pub struct LedgerEntryView {
    pub id: Seq<char>,
    pub document: Option<JsonDoc>,
    pub timestamp: u64,
}

impl View for LedgerEntry {
    type V = LedgerEntryView;

    open spec fn view(&self) -> LedgerEntryView {
        LedgerEntryView {
            id: self.id@,
            document: self.document.deep_view(),
            timestamp: self.timestamp,
        }
    }
}

impl DeepView for LedgerEntry {
    type V = LedgerEntryView;

    open spec fn deep_view(&self) -> LedgerEntryView {
        self@
    }
}

/// The answer of the ledger to one question, once it was read.
#[derive(Debug, PartialEq)]
pub struct ReadAnswer {
    pub requested: String,
    pub timestamp: Option<u64>,
    pub outcome: VcxResult<LedgerEntry>,
}

/// What a `ReadAnswer` is: of a failure only the kind counts.
pub struct ReadAnswerView {
    pub requested: Seq<char>,
    pub timestamp: Option<u64>,
    pub outcome: Result<LedgerEntryView, VcxErrorKind>,
}

impl View for ReadAnswer {
    type V = ReadAnswerView;

    open spec fn view(&self) -> ReadAnswerView {
        ReadAnswerView {
            requested: self.requested@,
            timestamp: self.timestamp,
            outcome: match self.outcome {
                Ok(entry) => Ok(entry@),
                Err(failure) => Err(failure.spec_kind()),
            },
        }
    }
}

impl DeepView for ReadAnswer {
    type V = ReadAnswerView;

    open spec fn deep_view(&self) -> ReadAnswerView {
        self@
    }
}

/// An answer of the ledger as it reads: its JSON text is replaced by the
/// document that the text holds.
pub open spec fn read_answer(answer: LedgerAnswer) -> ReadAnswerView {
    ReadAnswerView {
        requested: answer.requested@,
        timestamp: answer.timestamp,
        outcome: match answer.outcome {
            Ok(found) => Ok(
                LedgerEntryView {
                    id: found.id@,
                    document: json_parsed(found.json@),
                    timestamp: found.timestamp,
                },
            ),
            Err(failure) => Err(failure.spec_kind()),
        },
    }
}

/// The answers of the ledger as they read.
pub open spec fn read_answers(answers: Seq<LedgerAnswer>) -> Seq<ReadAnswerView> {
    Seq::new(answers.len(), |i: int| read_answer(answers[i]))
}

/// The kinds of document that validating a proof needs from the ledger.
#[derive(Debug, Clone, Copy, PartialEq, Eq, Structural)]
pub enum LedgerObject {
    CredentialDef,
    Schema,
    RevRegDef,
    RevReg,
}

/// A question to the ledger: the identifier that is asked for and, for a
/// revocation registry, the time at which it is asked for.
#[derive(Debug, Clone, PartialEq)]
pub struct LedgerQuestion {
    pub requested: String,
    pub timestamp: Option<u64>,
}

/// What a `LedgerQuestion` is: its value, with texts as sequences of
/// characters.
pub struct LedgerQuestionView {
    pub requested: Seq<char>,
    pub timestamp: Option<u64>,
}

impl View for LedgerQuestion {
    type V = LedgerQuestionView;

    open spec fn view(&self) -> LedgerQuestionView {
        LedgerQuestionView { requested: self.requested@, timestamp: self.timestamp }
    }
}

impl DeepView for LedgerQuestion {
    type V = LedgerQuestionView;

    open spec fn deep_view(&self) -> LedgerQuestionView {
        self@
    }
}

impl LedgerQuestion {
    /// The answer to this question that holds what the ledger gave.
    pub fn answered(&self, outcome: VcxResult<LedgerDocument>) -> (answer: LedgerAnswer)
        ensures
            answer.requested@ == self.requested@,
            answer.timestamp == self.timestamp,
            answer.outcome == outcome,
    {
        LedgerAnswer { requested: self.requested.clone(), timestamp: self.timestamp, outcome }
    }
}

/// The question that the credential `info` puts to the ledger for a document
/// of the kind `object`, or the kind of failure where the credential lacks
/// what the question needs: a revocation document needs the credential to
/// name its registry, and the registry itself also a time.
pub open spec fn question(object: LedgerObject, info: CredInfoView) -> Result<
    LedgerQuestionView,
    VcxErrorKind,
> {
    match object {
        LedgerObject::CredentialDef => Ok(
            LedgerQuestionView { requested: info.cred_def_id, timestamp: None },
        ),
        LedgerObject::Schema => Ok(
            LedgerQuestionView { requested: info.schema_id, timestamp: None },
        ),
        LedgerObject::RevRegDef => match info.rev_reg_id {
            Some(rev_reg_id) => Ok(LedgerQuestionView { requested: rev_reg_id, timestamp: None }),
            None => Err(VcxErrorKind::InvalidRevocationDetails),
        },
        LedgerObject::RevReg => match info.rev_reg_id {
            Some(rev_reg_id) => match info.timestamp {
                Some(timestamp) => Ok(
                    LedgerQuestionView { requested: rev_reg_id, timestamp: Some(timestamp) },
                ),
                None => Err(VcxErrorKind::InvalidRevocationTimestamp),
            },
            None => Err(VcxErrorKind::InvalidRevocationDetails),
        },
    }
}

/// The questions that the first `count` credentials put to the ledger for
/// documents of the kind `object`, in the order of the credentials. A
/// credential that lacks what the question needs asks nothing.
pub open spec fn questions(object: LedgerObject, credential_data: Seq<CredInfoView>, count: nat)
    -> Seq<LedgerQuestionView>
    decreases count,
{
    if count == 0 {
        Seq::empty()
    } else {
        let before = questions(object, credential_data, (count - 1) as nat);
        match question(object, credential_data[count - 1]) {
            Ok(asked) => before.push(asked),
            Err(_) => before,
        }
    }
}

/// Whether `answers` holds one answer for each question of `asked`, in their
/// order.
pub open spec fn answers_follow(asked: Seq<LedgerQuestionView>, answers: Seq<ReadAnswerView>)
    -> bool {
    &&& answers.len() == asked.len()
    &&& forall|i: int|
        0 <= i < asked.len() ==> (#[trigger] answers[i]).requested == asked[i].requested
            && answers[i].timestamp == asked[i].timestamp
}

/// Whether every credential finds among `answers` an answer to the question
/// that it puts for a document of the kind `object`.
pub open spec fn finds_each(
    object: LedgerObject,
    credential_data: Seq<CredInfoView>,
    answers: Seq<ReadAnswerView>,
) -> bool {
    forall|k: int|
        0 <= k < credential_data.len() ==> match question(object, #[trigger] credential_data[k]) {
            Ok(asked) => answer_for(answers, asked.requested, asked.timestamp) is Some,
            Err(_) => true,
        }
}

/// The credentials among the first `count` that name a revocation registry,
/// in their order.
pub open spec fn revocable(credential_data: Seq<CredInfoView>, count: nat) -> Seq<CredInfoView>
    decreases count,
{
    if count == 0 {
        Seq::empty()
    } else {
        let before = revocable(credential_data, (count - 1) as nat);
        if credential_data[count - 1].rev_reg_id is Some {
            before.push(credential_data[count - 1])
        } else {
            before
        }
    }
}

/// The answer to the question for `requested` at `timestamp`: the first one
/// among `answers`.
pub open spec fn answer_for(
    answers: Seq<ReadAnswerView>,
    requested: Seq<char>,
    timestamp: Option<u64>,
) -> Option<Result<LedgerEntryView, VcxErrorKind>>
    decreases answers.len(),
{
    if answers.len() == 0 {
        None
    } else if answers[0].requested == requested && answers[0].timestamp == timestamp {
        Some(answers[0].outcome)
    } else {
        answer_for(answers.drop_first(), requested, timestamp)
    }
}

/// The kind of failure where the ledger has no answer, or a failure of the
/// kind `kind`, for a document.
pub open spec fn lookup_failure(object: LedgerObject, kind: VcxErrorKind) -> VcxErrorKind {
    match object {
        LedgerObject::CredentialDef => kind,
        LedgerObject::Schema => VcxErrorKind::InvalidSchema,
        LedgerObject::RevRegDef => VcxErrorKind::InvalidRevocationDetails,
        LedgerObject::RevReg => VcxErrorKind::InvalidRevocationDetails,
    }
}

/// The kind of failure where what the ledger holds is no JSON.
pub open spec fn unreadable(object: LedgerObject) -> VcxErrorKind {
    match object {
        LedgerObject::CredentialDef => VcxErrorKind::InvalidProofCredentialData,
        LedgerObject::Schema => VcxErrorKind::InvalidSchema,
        LedgerObject::RevRegDef => VcxErrorKind::InvalidSchema,
        LedgerObject::RevReg => VcxErrorKind::InvalidJson,
    }
}

/// What is stored for a document: the document itself, and for a revocation
/// registry an object that holds it under its time.
pub open spec fn stored(object: LedgerObject, document: JsonDoc, timestamp: u64) -> JsonDoc {
    match object {
        LedgerObject::RevReg => JsonDoc::Object(
            Map::<Seq<char>, JsonDoc>::empty().insert(decimal_text(timestamp as nat), document),
        ),
        _ => document,
    }
}

/// The documents after the one asked for under `requested` was added to
/// `built`: nothing is added where `built` has a document under that
/// identifier already; otherwise the ledger's answer is stored under the
/// identifier that the ledger gave.
///
/// A failure of the ledger, and a document that is no JSON, is a failure
/// here. So is a question that has no answer among `answers`, as one that
/// was never put to the ledger; [`ledger_questions`] lists the questions so
/// that none is left out.
pub open spec fn resolved(
    object: LedgerObject,
    built: Map<Seq<char>, JsonDoc>,
    requested: Seq<char>,
    timestamp: Option<u64>,
    answers: Seq<ReadAnswerView>,
) -> Result<Map<Seq<char>, JsonDoc>, VcxErrorKind> {
    if built.contains_key(requested) {
        Ok(built)
    } else {
        match answer_for(answers, requested, timestamp) {
            Some(Ok(found)) => match found.document {
                Some(document) => Ok(
                    built.insert(found.id, stored(object, document, found.timestamp)),
                ),
                None => Err(unreadable(object)),
            },
            Some(Err(kind)) => Err(lookup_failure(object, kind)),
            None => Err(lookup_failure(object, VcxErrorKind::InvalidProofCredentialData)),
        }
    }
}

/// The documents after the one that the credential `info` needs was added;
/// see [`question`] for what the credential asks.
pub open spec fn added(
    object: LedgerObject,
    built: Map<Seq<char>, JsonDoc>,
    info: CredInfoView,
    answers: Seq<ReadAnswerView>,
) -> Result<Map<Seq<char>, JsonDoc>, VcxErrorKind> {
    match question(object, info) {
        Ok(asked) => resolved(object, built, asked.requested, asked.timestamp, answers),
        Err(kind) => Err(kind),
    }
}

/// The documents that the first `count` credentials need, added one after
/// the other; the first failure ends it.
pub open spec fn documents(
    object: LedgerObject,
    credential_data: Seq<CredInfoView>,
    answers: Seq<ReadAnswerView>,
    count: nat,
) -> Result<Map<Seq<char>, JsonDoc>, VcxErrorKind>
    decreases count,
{
    if count == 0 {
        Ok(Map::empty())
    } else {
        match documents(object, credential_data, answers, (count - 1) as nat) {
            Ok(built) => added(object, built, credential_data[count - 1], answers),
            Err(kind) => Err(kind),
        }
    }
}

/// The JSON text of the documents that the credentials need, or the kind of
/// the failure to collect them.
pub open spec fn documents_json(
    object: LedgerObject,
    credential_data: Seq<CredInfoView>,
    answers: Seq<LedgerAnswer>,
) -> Result<Seq<char>, VcxErrorKind> {
    match documents(object, credential_data, read_answers(answers), credential_data.len()) {
        Ok(built) => Ok(json_text(JsonDoc::Object(built))),
        Err(kind) => Err(kind),
    }
}

fn find_answer<'a>(answers: &'a Vec<ReadAnswer>, requested: &str, timestamp: Option<u64>) -> (found:
    Option<&'a ReadAnswer>)
    ensures
        match answer_for(answers.deep_view(), requested@, timestamp) {
            Some(outcome) => found is Some && found->0@.outcome == outcome,
            None => found is None,
        },
{
    let ghost views = answers.deep_view();
    let mut i: usize = 0;
    assert(views.skip(0) =~= views);
    while i < answers.len()
        invariant
            i <= answers.len(),
            views == answers.deep_view(),
            answer_for(views, requested@, timestamp) == answer_for(
                views.skip(i as int),
                requested@,
                timestamp,
            ),
        decreases answers.len() - i,
    {
        let same_time = match (answers[i].timestamp, timestamp) {
            (Some(a), Some(b)) => a == b,
            (None, None) => true,
            _ => false,
        };
        assert(views.skip(i as int)[0] == answers@[i as int]@);
        if same_time && text_eq(answers[i].requested.as_str(), requested) {
            return Some(&answers[i]);
        }
        assert(views.skip(i as int).drop_first() =~= views.skip(i + 1));
        i += 1;
    }
    None
}

fn failure_of_lookup(object: LedgerObject, kind: VcxErrorKind) -> (failure: VcxError)
    ensures
        failure.kind() == lookup_failure(object, kind),
{
    match object {
        LedgerObject::CredentialDef => VcxError::from_kind(kind),
        LedgerObject::Schema => VcxError::from_msg(VcxErrorKind::InvalidSchema, "Cannot get schema"),
        LedgerObject::RevRegDef => VcxError::from_kind(VcxErrorKind::InvalidRevocationDetails),
        LedgerObject::RevReg => VcxError::from_kind(VcxErrorKind::InvalidRevocationDetails),
    }
}

fn failure_of_reading(object: LedgerObject) -> (failure: VcxError)
    ensures
        failure.kind() == unreadable(object),
{
    match object {
        LedgerObject::CredentialDef => VcxError::from_msg(
            VcxErrorKind::InvalidProofCredentialData,
            "Cannot deserialize credential definition",
        ),
        LedgerObject::Schema => VcxError::from_msg(
            VcxErrorKind::InvalidSchema,
            "Cannot deserialize schema",
        ),
        LedgerObject::RevRegDef => VcxError::from_kind(VcxErrorKind::InvalidSchema),
        LedgerObject::RevReg => VcxError::from_kind(VcxErrorKind::InvalidJson),
    }
}

fn resolve(
    object: LedgerObject,
    built: &mut JsonValue,
    requested: &str,
    timestamp: Option<u64>,
    answers: &Vec<ReadAnswer>,
) -> (outcome: VcxResult<()>)
    requires
        old(built)@ is Object,
    ensures
        final(built)@ is Object,
        match resolved(object, old(built)@->Object_0, requested@, timestamp, answers.deep_view()) {
            Ok(map) => outcome is Ok && final(built)@->Object_0 == map,
            Err(kind) => outcome is Err && outcome->Err_0.kind() == kind,
        },
{
    if built.get(requested).is_some() {
        return Ok(());
    }
    match find_answer(answers, requested, timestamp) {
        Some(answer) => match &answer.outcome {
            Ok(found) => match &found.document {
                Some(document) => {
                    let entry = match object {
                        LedgerObject::RevReg => {
                            let mut wrapped = JsonValue::object();
                            wrapped.insert(decimal_string(found.timestamp), document.duplicate());
                            wrapped
                        },
                        _ => document.duplicate(),
                    };
                    built.insert(found.id.clone(), entry);
                    Ok(())
                },
                None => Err(failure_of_reading(object)),
            },
            Err(failure) => Err(failure_of_lookup(object, failure.kind())),
        },
        None => Err(failure_of_lookup(object, VcxErrorKind::InvalidProofCredentialData)),
    }
}

fn add_document(
    object: LedgerObject,
    built: &mut JsonValue,
    info: &CredInfo,
    answers: &Vec<ReadAnswer>,
) -> (outcome: VcxResult<()>)
    requires
        old(built)@ is Object,
    ensures
        final(built)@ is Object,
        match added(object, old(built)@->Object_0, info@, answers.deep_view()) {
            Ok(map) => outcome is Ok && final(built)@->Object_0 == map,
            Err(kind) => outcome is Err && outcome->Err_0.kind() == kind,
        },
{
    match object {
        LedgerObject::CredentialDef => resolve(
            object,
            built,
            info.cred_def_id.as_str(),
            None,
            answers,
        ),
        LedgerObject::Schema => resolve(object, built, info.schema_id.as_str(), None, answers),
        LedgerObject::RevRegDef => match &info.rev_reg_id {
            Some(rev_reg_id) => resolve(object, built, rev_reg_id.as_str(), None, answers),
            None => Err(VcxError::from_kind(VcxErrorKind::InvalidRevocationDetails)),
        },
        LedgerObject::RevReg => match &info.rev_reg_id {
            Some(rev_reg_id) => match info.timestamp {
                Some(timestamp) => resolve(
                    object,
                    built,
                    rev_reg_id.as_str(),
                    Some(timestamp),
                    answers,
                ),
                None => Err(VcxError::from_kind(VcxErrorKind::InvalidRevocationTimestamp)),
            },
            None => Err(VcxError::from_kind(VcxErrorKind::InvalidRevocationDetails)),
        },
    }
}

proof fn lemma_documents_fail(
    object: LedgerObject,
    credential_data: Seq<CredInfoView>,
    answers: Seq<ReadAnswerView>,
    failed: nat,
    count: nat,
)
    requires
        failed <= count,
        documents(object, credential_data, answers, failed) is Err,
    ensures
        documents(object, credential_data, answers, count) == documents(
            object,
            credential_data,
            answers,
            failed,
        ),
    decreases count,
{
    if failed < count {
        lemma_documents_fail(object, credential_data, answers, failed, (count - 1) as nat);
    }
}

/// Reads the JSON text of each answer of the ledger.
pub fn read_ledger_answers(answers: &Vec<LedgerAnswer>) -> (read: Vec<ReadAnswer>)
    ensures
        read.deep_view() == read_answers(answers@),
{
    let mut read: Vec<ReadAnswer> = Vec::new();
    let mut i: usize = 0;
    while i < answers.len()
        invariant
            i <= answers.len(),
            read.len() == i,
            forall|k: int| 0 <= k < i ==> read@[k]@ == read_answer(answers@[k]),
        decreases answers.len() - i,
    {
        let outcome = match &answers[i].outcome {
            Ok(found) => Ok(
                LedgerEntry {
                    id: found.id.clone(),
                    document: JsonValue::from_text(found.json.as_str()),
                    timestamp: found.timestamp,
                },
            ),
            Err(failure) => Err(VcxError::from_msg(failure.kind(), failure.message())),
        };
        read.push(
            ReadAnswer {
                requested: answers[i].requested.clone(),
                timestamp: answers[i].timestamp,
                outcome,
            },
        );
        i += 1;
    }
    assert(read.deep_view() =~= read_answers(answers@));
    read
}

/// Collects the documents of one kind that the credentials of a proof need,
/// from the answers that the ledger gave, into one object.
///
/// The credentials are gone through in their order. A credential whose
/// document is there already needs nothing. The first failure ends the
/// collection: an answer that is missing or a failure, a document that was
/// no JSON, or a credential without the identifiers that the kind needs.
pub fn build_documents(
    object: LedgerObject,
    credential_data: &Vec<CredInfo>,
    answers: &Vec<ReadAnswer>,
) -> (built: VcxResult<JsonValue>)
    ensures
        match documents(
            object,
            credential_data.deep_view(),
            answers.deep_view(),
            credential_data.len() as nat,
        ) {
            Ok(map) => built is Ok && built->Ok_0@ == JsonDoc::Object(map),
            Err(kind) => built is Err && built->Err_0.kind() == kind,
        },
{
    let mut built = JsonValue::object();
    let mut i: usize = 0;
    let ghost infos = credential_data.deep_view();
    while i < credential_data.len()
        invariant
            i <= credential_data.len(),
            infos == credential_data.deep_view(),
            built@ is Object,
            documents(object, infos, answers.deep_view(), i as nat) == Ok::<
                Map<Seq<char>, JsonDoc>,
                VcxErrorKind,
            >(built@->Object_0),
        decreases credential_data.len() - i,
    {
        assert(infos[i as int] == credential_data[i as int]@);
        match add_document(object, &mut built, &credential_data[i], answers) {
            Ok(_) => {},
            Err(failure) => {
                proof {
                    lemma_documents_fail(
                        object,
                        infos,
                        answers.deep_view(),
                        (i + 1) as nat,
                        infos.len(),
                    );
                }
                return Err(failure);
            },
        }
        i += 1;
    }
    Ok(built)
}

/// Collects the documents of one kind that the credentials of a proof need,
/// from the answers that the ledger gave, and writes them as one JSON
/// object; see [`build_documents`].
pub fn build_documents_json(
    object: LedgerObject,
    credential_data: &Vec<CredInfo>,
    answers: &Vec<LedgerAnswer>,
) -> (json: VcxResult<String>)
    ensures
        match documents_json(object, credential_data.deep_view(), answers@) {
            Ok(text) => json is Ok && json->Ok_0@ == text,
            Err(kind) => json is Err && json->Err_0.kind() == kind,
        },
{
    let read = read_ledger_answers(answers);
    match build_documents(object, credential_data, &read) {
        Ok(built) => Ok(built.to_text()),
        Err(failure) => Err(failure),
    }
}

/// The answers of the ledger that validating a proof needs, by kind.
#[derive(Debug, PartialEq)]
pub struct LedgerAnswers {
    pub credential_defs: Vec<LedgerAnswer>,
    pub schemas: Vec<LedgerAnswer>,
    pub rev_reg_defs: Vec<LedgerAnswer>,
    pub rev_regs: Vec<LedgerAnswer>,
}

/// What the credential backend is given to verify a proof, all as JSON text.
#[derive(Debug, Clone, PartialEq)]
pub struct VerificationInputs {
    pub proof_req_json: String,
    pub proof_json: String,
    pub schemas_json: String,
    pub credential_defs_json: String,
    pub rev_reg_defs_json: String,
    pub rev_regs_json: String,
}

/// The four texts that the credential backend is given beside the proof and
/// its request: credential definitions, schemas, revocation registry
/// definitions and revocation registries, or the kind of the first failure to
/// collect them.
///
/// Every credential needs its credential definition and its schema. Only a
/// credential that names a revocation registry needs revocation documents:
/// where none does, the two texts of revocation hold the empty object.
pub open spec fn verification_documents(credential_data: Seq<CredInfoView>, answers: LedgerAnswers)
    -> Result<(Seq<char>, Seq<char>, Seq<char>, Seq<char>), VcxErrorKind> {
    let revoked = revocable(credential_data, credential_data.len());
    match documents_json(LedgerObject::CredentialDef, credential_data, answers.credential_defs@) {
        Err(kind) => Err(kind),
        Ok(credential_defs) => match documents_json(
            LedgerObject::Schema,
            credential_data,
            answers.schemas@,
        ) {
            Err(kind) => Err(kind),
            Ok(schemas) => match documents_json(
                LedgerObject::RevRegDef,
                revoked,
                answers.rev_reg_defs@,
            ) {
                Err(kind) => Err(kind),
                Ok(rev_reg_defs) => match documents_json(
                    LedgerObject::RevReg,
                    revoked,
                    answers.rev_regs@,
                ) {
                    Err(kind) => Err(kind),
                    Ok(rev_regs) => Ok((credential_defs, schemas, rev_reg_defs, rev_regs)),
                },
            },
        },
    }
}

proof fn lemma_answer_found(
    answers: Seq<ReadAnswerView>,
    at: int,
    requested: Seq<char>,
    timestamp: Option<u64>,
)
    requires
        0 <= at < answers.len(),
        answers[at].requested == requested,
        answers[at].timestamp == timestamp,
    ensures
        answer_for(answers, requested, timestamp) is Some,
    decreases answers.len(),
{
    if !(answers[0].requested == requested && answers[0].timestamp == timestamp) {
        lemma_answer_found(answers.drop_first(), at - 1, requested, timestamp);
    }
}

proof fn lemma_question_listed(
    object: LedgerObject,
    credential_data: Seq<CredInfoView>,
    count: nat,
    k: int,
) -> (at: int)
    requires
        0 <= k < count <= credential_data.len(),
        question(object, credential_data[k]) is Ok,
    ensures
        0 <= at < questions(object, credential_data, count).len(),
        questions(object, credential_data, count)[at] == question(
            object,
            credential_data[k],
        )->Ok_0,
    decreases count,
{
    let before = questions(object, credential_data, (count - 1) as nat);
    if k == count - 1 {
        before.len() as int
    } else {
        lemma_question_listed(object, credential_data, (count - 1) as nat, k)
    }
}

/// Where the ledger was asked every question that the credentials put, one
/// answer for each, every credential finds its answer: no document is then
/// missing for want of a question.
pub proof fn asked_questions_are_answered(
    object: LedgerObject,
    credential_data: Seq<CredInfoView>,
    answers: Seq<ReadAnswerView>,
)
    requires
        answers_follow(questions(object, credential_data, credential_data.len()), answers),
    ensures
        finds_each(object, credential_data, answers),
{
    assert forall|k: int| 0 <= k < credential_data.len() implies match question(
        object,
        #[trigger] credential_data[k],
    ) {
        Ok(asked) => answer_for(answers, asked.requested, asked.timestamp) is Some,
        Err(_) => true,
    } by {
        if question(object, credential_data[k]) is Ok {
            let asked = question(object, credential_data[k])->Ok_0;
            let at = lemma_question_listed(object, credential_data, credential_data.len(), k);
            lemma_answer_found(answers, at, asked.requested, asked.timestamp);
        }
    }
}

fn ask(object: LedgerObject, info: &CredInfo) -> (asked: Option<LedgerQuestion>)
    ensures
        match question(object, info@) {
            Ok(view) => asked is Some && asked->0@ == view,
            Err(_) => asked is None,
        },
{
    match object {
        LedgerObject::CredentialDef => Some(
            LedgerQuestion { requested: info.cred_def_id.clone(), timestamp: None },
        ),
        LedgerObject::Schema => Some(
            LedgerQuestion { requested: info.schema_id.clone(), timestamp: None },
        ),
        LedgerObject::RevRegDef => match &info.rev_reg_id {
            Some(rev_reg_id) => Some(
                LedgerQuestion { requested: rev_reg_id.clone(), timestamp: None },
            ),
            None => None,
        },
        LedgerObject::RevReg => match (&info.rev_reg_id, info.timestamp) {
            (Some(rev_reg_id), Some(timestamp)) => Some(
                LedgerQuestion { requested: rev_reg_id.clone(), timestamp: Some(timestamp) },
            ),
            _ => None,
        },
    }
}

/// The questions to put to the ledger so that the documents of the kind
/// `object` can be collected for the credentials of a proof: one for each
/// credential that can ask, in the order of the credentials.
///
/// Answers that follow these questions one by one leave no credential
/// without its answer.
pub fn ledger_questions(object: LedgerObject, credential_data: &Vec<CredInfo>) -> (asked: Vec<
    LedgerQuestion,
>)
    ensures
        asked.deep_view() == questions(
            object,
            credential_data.deep_view(),
            credential_data.len() as nat,
        ),
        forall|answers: Seq<ReadAnswerView>| #[trigger]
            answers_follow(asked.deep_view(), answers) ==> finds_each(
                object,
                credential_data.deep_view(),
                answers,
            ),
{
    let mut asked: Vec<LedgerQuestion> = Vec::new();
    let mut i: usize = 0;
    let ghost infos = credential_data.deep_view();
    assert(asked.deep_view() =~= questions(object, infos, 0));
    while i < credential_data.len()
        invariant
            i <= credential_data.len(),
            infos == credential_data.deep_view(),
            asked.deep_view() == questions(object, infos, i as nat),
        decreases credential_data.len() - i,
    {
        assert(infos[i as int] == credential_data[i as int]@);
        let ghost before = asked.deep_view();
        match ask(object, &credential_data[i]) {
            Some(next) => {
                asked.push(next);
                assert(asked.deep_view() =~= before.push(next@));
            },
            None => {},
        }
        i += 1;
    }
    proof {
        assert forall|answers: Seq<ReadAnswerView>| #[trigger]
            answers_follow(asked.deep_view(), answers) implies finds_each(
            object,
            infos,
            answers,
        ) by {
            asked_questions_are_answered(object, infos, answers);
        }
    }
    asked
}

/// The credentials that name a revocation registry, in their order.
pub fn revocable_credentials(credential_data: &Vec<CredInfo>) -> (kept: Vec<CredInfo>)
    ensures
        kept.deep_view() == revocable(credential_data.deep_view(), credential_data.len() as nat),
{
    let mut kept: Vec<CredInfo> = Vec::new();
    let mut i: usize = 0;
    let ghost infos = credential_data.deep_view();
    assert(kept.deep_view() =~= revocable(infos, 0));
    while i < credential_data.len()
        invariant
            i <= credential_data.len(),
            infos == credential_data.deep_view(),
            kept.deep_view() == revocable(infos, i as nat),
        decreases credential_data.len() - i,
    {
        assert(infos[i as int] == credential_data[i as int]@);
        let ghost before = kept.deep_view();
        let info = &credential_data[i];
        if info.rev_reg_id.is_some() {
            let copy = CredInfo {
                schema_id: info.schema_id.clone(),
                cred_def_id: info.cred_def_id.clone(),
                rev_reg_id: clone_opt_text(&info.rev_reg_id),
                timestamp: info.timestamp,
            };
            kept.push(copy);
            assert(kept.deep_view() =~= before.push(copy@));
        }
        i += 1;
    }
    kept
}

impl Proof {
    /// Checks the revealed attributes of the proof in the JSON text
    /// `proof_json`.
    ///
    /// Fails with `InvalidJson` where the text is no JSON, and as
    /// [`check_revealed_attributes`] does.
    pub fn validate_proof_revealed_attributes(proof_json: &str) -> (checked: VcxResult<()>)
        ensures
            match json_parsed(proof_json@) {
                None => checked is Err && checked->Err_0.kind() == VcxErrorKind::InvalidJson,
                Some(proof) => {
                    &&& checked is Ok ==> revealed_attributes_hold(proof)
                    &&& checked matches Err(failure) ==> failure.kind()
                        == VcxErrorKind::InvalidProof || failure.kind()
                        == VcxErrorKind::EncodeError
                    &&& checked matches Err(failure) ==> (failure.kind()
                        == VcxErrorKind::InvalidProof ==> !revealed_attributes_hold(proof))
                    &&& revealed_attributes_need_no_digest(proof) ==> (checked is Ok
                        <==> revealed_attributes_hold(proof))
                    &&& revealed_attributes_need_no_digest(proof) ==> (checked matches Err(
                        failure,
                    ) ==> failure.kind() == VcxErrorKind::InvalidProof)
                },
            },
    {
        match JsonValue::from_text(proof_json) {
            Some(proof) => check_revealed_attributes(&proof),
            None => Err(
                VcxError::from_msg(VcxErrorKind::InvalidJson, "Cannot deserialize libndy proof"),
            ),
        }
    }

    /// The credential definitions that the credentials need, as one JSON
    /// object; see [`build_documents_json`].
    pub fn build_credential_defs_json(
        credential_data: &Vec<CredInfo>,
        answers: &Vec<LedgerAnswer>,
    ) -> (json: VcxResult<String>)
        ensures
            match documents_json(
                LedgerObject::CredentialDef,
                credential_data.deep_view(),
                answers@,
            ) {
                Ok(text) => json is Ok && json->Ok_0@ == text,
                Err(kind) => json is Err && json->Err_0.kind() == kind,
            },
    {
        build_documents_json(LedgerObject::CredentialDef, credential_data, answers)
    }

    /// The schemas that the credentials need, as one JSON object; see
    /// [`build_documents_json`].
    pub fn build_schemas_json(credential_data: &Vec<CredInfo>, answers: &Vec<LedgerAnswer>) -> (json:
        VcxResult<String>)
        ensures
            match documents_json(LedgerObject::Schema, credential_data.deep_view(), answers@) {
                Ok(text) => json is Ok && json->Ok_0@ == text,
                Err(kind) => json is Err && json->Err_0.kind() == kind,
            },
    {
        build_documents_json(LedgerObject::Schema, credential_data, answers)
    }

    /// The revocation registry definitions that the credentials need, as one
    /// JSON object; see [`build_documents_json`].
    pub fn build_rev_reg_defs_json(
        credential_data: &Vec<CredInfo>,
        answers: &Vec<LedgerAnswer>,
    ) -> (json: VcxResult<String>)
        ensures
            match documents_json(LedgerObject::RevRegDef, credential_data.deep_view(), answers@) {
                Ok(text) => json is Ok && json->Ok_0@ == text,
                Err(kind) => json is Err && json->Err_0.kind() == kind,
            },
    {
        build_documents_json(LedgerObject::RevRegDef, credential_data, answers)
    }

    /// The revocation registries that the credentials need, each under its
    /// time, as one JSON object; see [`build_documents_json`].
    pub fn build_rev_reg_json(credential_data: &Vec<CredInfo>, answers: &Vec<LedgerAnswer>) -> (json:
        VcxResult<String>)
        ensures
            match documents_json(LedgerObject::RevReg, credential_data.deep_view(), answers@) {
                Ok(text) => json is Ok && json->Ok_0@ == text,
                Err(kind) => json is Err && json->Err_0.kind() == kind,
            },
    {
        build_documents_json(LedgerObject::RevReg, credential_data, answers)
    }

    /// Checks of a proof what can be checked without cryptography, and
    /// collects what the credential backend needs to verify it.
    ///
    /// Fails as [`Proof::validate_proof_revealed_attributes`] and
    /// [`get_credential_info`] do. A document that cannot be collected from
    /// the answers of the ledger is a failure too, of the kind that
    /// [`verification_documents`] gives: an answer that is a failure or is
    /// missing, or a document that is no JSON. The one exception is a
    /// credential that names no revocation registry: it needs no revocation
    /// documents.
    pub fn validate_indy_proof(proof_json: &str, proof_req_json: &str, answers: &LedgerAnswers)
        -> (inputs: VcxResult<VerificationInputs>)
        ensures
            json_parsed(proof_json@) is None ==> inputs is Err && inputs->Err_0.kind()
                == VcxErrorKind::InvalidJson,
            json_parsed(proof_json@) matches Some(proof) ==> {
                &&& !revealed_attributes_hold(proof) ==> inputs is Err
                &&& credential_info(proof) is None ==> inputs is Err
                &&& revealed_attributes_need_no_digest(proof) && !revealed_attributes_hold(proof)
                    ==> inputs->Err_0.kind() == VcxErrorKind::InvalidProof
                &&& revealed_attributes_need_no_digest(proof) && revealed_attributes_hold(proof)
                    && credential_info(proof) is Some ==> match verification_documents(
                    credential_info(proof)->0,
                    *answers,
                ) {
                    Ok(_) => inputs is Ok,
                    Err(kind) => inputs is Err && inputs->Err_0.kind() == kind,
                }
                &&& credential_info(proof) is Some && verification_documents(
                    credential_info(proof)->0,
                    *answers,
                ) is Err ==> inputs is Err
                &&& inputs matches Ok(made) ==> {
                    &&& revealed_attributes_hold(proof)
                    &&& credential_info(proof) is Some
                    &&& made.proof_json@ == proof_json@
                    &&& made.proof_req_json@ == proof_req_json@
                    &&& verification_documents(credential_info(proof)->0, *answers) == Ok::<
                        (Seq<char>, Seq<char>, Seq<char>, Seq<char>),
                        VcxErrorKind,
                    >(
                        (
                            made.credential_defs_json@,
                            made.schemas_json@,
                            made.rev_reg_defs_json@,
                            made.rev_regs_json@,
                        ),
                    )
                }
                &&& inputs matches Err(failure) ==> failure.kind() == VcxErrorKind::InvalidProof
                    || failure.kind() == VcxErrorKind::EncodeError || failure.kind()
                    == VcxErrorKind::InvalidProofCredentialData || (credential_info(proof) is Some
                    && verification_documents(credential_info(proof)->0, *answers) == Err::<
                    (Seq<char>, Seq<char>, Seq<char>, Seq<char>),
                    VcxErrorKind,
                >(failure.kind()))
            },
    {
        match Proof::validate_proof_revealed_attributes(proof_json) {
            Ok(_) => {},
            Err(failure) => {
                return Err(failure);
            },
        }
        let credential_data = match get_credential_info(proof_json) {
            Ok(credential_data) => credential_data,
            Err(failure) => {
                return Err(failure);
            },
        };
        let credential_defs_json = match Proof::build_credential_defs_json(
            &credential_data,
            &answers.credential_defs,
        ) {
            Ok(json) => json,
            Err(failure) => {
                return Err(failure);
            },
        };
        let schemas_json = match Proof::build_schemas_json(&credential_data, &answers.schemas) {
            Ok(json) => json,
            Err(failure) => {
                return Err(failure);
            },
        };
        let revoked = revocable_credentials(&credential_data);
        let rev_reg_defs_json = match Proof::build_rev_reg_defs_json(
            &revoked,
            &answers.rev_reg_defs,
        ) {
            Ok(json) => json,
            Err(failure) => {
                return Err(failure);
            },
        };
        let rev_regs_json = match Proof::build_rev_reg_json(&revoked, &answers.rev_regs) {
            Ok(json) => json,
            Err(failure) => {
                return Err(failure);
            },
        };
        Ok(
            VerificationInputs {
                proof_req_json: String::from_str(proof_req_json),
                proof_json: String::from_str(proof_json),
                schemas_json,
                credential_defs_json,
                rev_reg_defs_json,
                rev_regs_json,
            },
        )
    }
}

} // verus!
