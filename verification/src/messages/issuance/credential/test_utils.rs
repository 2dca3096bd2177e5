//! Sample values of the credential message, for tests and examples.

use vstd::prelude::*;
use vstd::string::StringExecFns;

use crate::messages::a2a::MessageId;
use crate::messages::attachment::{AttachmentId, AttachmentView, Attachments};
use crate::messages::issuance::credential::{Credential, CredentialView};
use crate::messages::thread::{Thread, ThreadView};
use crate::utils::json::{json_text, JsonDoc, JsonValue};

verus! {

/// The revocation registry that the sample credential belongs to.
pub const REV_REG_ID: &'static str =
    "V4SGRU86Z58d6TV7PBUe6f:4:V4SGRU86Z58d6TV7PBUe6f:3:CL:1281:tag1:CL_ACCUM:tag1";

/// The sample credential, as a document.
pub open spec fn attachment_doc() -> JsonDoc {
    JsonDoc::Object(
        Map::<Seq<char>, JsonDoc>::empty().insert(
            "schema_id"@,
            JsonDoc::Text("NcYxiDXkpYi6ov5FcYDi1e:2:gvt:1.0"@),
        ).insert(
            "cred_def_id"@,
            JsonDoc::Text("NcYxiDXkpYi6ov5FcYDi1e:3:CL:NcYxiDXkpYi6ov5FcYDi1e:2:gvt:1.0:TAG1"@),
        ).insert("rev_reg_id"@, JsonDoc::Text(REV_REG_ID@)).insert(
            "values"@,
            JsonDoc::Object(
                Map::<Seq<char>, JsonDoc>::empty().insert(
                    "name"@,
                    JsonDoc::Object(
                        Map::<Seq<char>, JsonDoc>::empty().insert(
                            "raw"@,
                            JsonDoc::Text("Name"@),
                        ).insert(
                            "encoded"@,
                            JsonDoc::Text("1139481716457488690172217916278103335"@),
                        ),
                    ),
                ),
            ),
        ),
    )
}

/// The sample credential, as a document.
pub fn _attachment() -> (document: JsonValue)
    ensures
        document@ == attachment_doc(),
{
    let mut name = JsonValue::object();
    name.insert(String::from_str("raw"), JsonValue::from_str("Name"));
    name.insert(
        String::from_str("encoded"),
        JsonValue::from_str("1139481716457488690172217916278103335"),
    );
    let mut values = JsonValue::object();
    values.insert(String::from_str("name"), name);
    let mut document = JsonValue::object();
    document.insert(
        String::from_str("schema_id"),
        JsonValue::from_str("NcYxiDXkpYi6ov5FcYDi1e:2:gvt:1.0"),
    );
    document.insert(
        String::from_str("cred_def_id"),
        JsonValue::from_str("NcYxiDXkpYi6ov5FcYDi1e:3:CL:NcYxiDXkpYi6ov5FcYDi1e:2:gvt:1.0:TAG1"),
    );
    document.insert(String::from_str("rev_reg_id"), JsonValue::from_str(REV_REG_ID));
    document.insert(String::from_str("values"), values);
    document
}

/// The sample comment.
pub fn _comment() -> (comment: String)
    ensures
        comment@ == "comment"@,
{
    String::from_str("comment")
}

/// The sample credential message: it carries the sample credential, under
/// the fixed identifier and on the thread of that identifier.
pub fn _credential() -> (credential: Credential)
    ensures
        credential@ == (CredentialView {
            id: "testid"@,
            comment: Some("comment"@),
            credentials_attach: seq![
                AttachmentView::json(AttachmentId::Credential, json_text(attachment_doc())),
            ],
            thread: ThreadView { thid: Some("testid"@), ..Thread::new_view() },
            please_ack: None,
            timing: None,
        }),
{
    let mut attachment = Attachments::new();
    let _ = attachment.add_base64_encoded_json_attachment(AttachmentId::Credential, _attachment());
    assert(attachment@ =~= seq![
        AttachmentView::json(AttachmentId::Credential, json_text(attachment_doc())),
    ]);
    Credential {
        id: MessageId::id(),
        comment: Some(_comment()),
        thread: Thread::new().set_thid(MessageId::id().0),
        credentials_attach: attachment,
        please_ack: None,
        timing: None,
    }
}

} // verus!
