//! The domain record the service migrates: a product submitted for review,
//! carrying a tri-state approval field, and rendered as a self-describing
//! JSON document when handed to the backend.
//!
//! Times are non-leap seconds since the Unix epoch. The two fractional
//! quantities of the record are held in milli-units (thousandths), so the
//! whole record is made of plain values; the JSON rendering prints them as
//! fixed-point decimals with three fractional digits.

use vstd::prelude::*;

use crate::clock::now_seconds;
use crate::json::dec_int;
use crate::json::dec_milli;
use crate::json::dec_milli_mag;
use crate::json::json_string;
use crate::json::null_seq;
use crate::json::push_dec_i64;
use crate::json::push_char;
use crate::json::push_json_string;
use crate::json::push_milli;
use crate::json::push_milli_mag;
use crate::json::push_null;
use vstd::string::StringExecFns;

verus! {

/// A product record, as the review and migration paths handle it.
#[derive(Debug, Clone)]
pub struct ProductData {
    /// Database identifier, once assigned.
    pub id: Option<i32>,
    /// Brand identifier, once resolved.
    pub brand_id: Option<i32>,
    /// Product category name.
    pub category: String,
    /// Product name.
    pub name: String,
    /// URL slug.
    pub slug: String,
    /// Image location, if any.
    pub image_url: Option<String>,
    /// Free-text description, if any.
    pub description: Option<String>,
    /// Servings per container, if known.
    pub servings_per_container: Option<i32>,
    /// Serving size in milligrams, if known.
    pub serving_size_milligrams: Option<u64>,
    /// Transparency score, if rated.
    pub transparency_score: Option<i32>,
    /// Confidence level label, if rated.
    pub confidence_level: Option<String>,
    /// Dosage rating, if rated.
    pub dosage_rating: Option<i32>,
    /// Danger rating, if rated.
    pub danger_rating: Option<i32>,
    /// Community rating in milli-stars (thousandths), if rated.
    pub community_rating_milli: Option<i64>,
    /// Number of reviews counted into the community rating.
    pub total_reviews: Option<i32>,
    /// Approval status: `1` approved, `0` pending, `-1` denied.
    pub approval_status: i32,
    /// Submitter identifier.
    pub submitted_by: String,
    /// Identifier of the account that decided the record.
    pub reviewed_by: Option<String>,
    /// Why the record was rejected, if it was.
    pub rejection_reason: Option<String>,
    /// When the record was created, in seconds.
    pub created_at: i64,
    /// When the record was last updated, in seconds.
    pub updated_at: i64,
    /// When the record was reviewed, in seconds, once reviewed.
    pub reviewed_at: Option<i64>,
}

/// A JSON value for an optional integer: the decimal digits, or `null`.
pub open spec fn json_opt_int(o: Option<i32>) -> Seq<char> {
    match o {
        Some(v) => dec_int(v as int),
        None => null_seq(),
    }
}

/// A JSON value for an optional long integer: the decimal digits, or `null`.
pub open spec fn json_opt_long(o: Option<i64>) -> Seq<char> {
    match o {
        Some(v) => dec_int(v as int),
        None => null_seq(),
    }
}

/// A JSON value for an optional milli-unit magnitude: a fixed-point
/// decimal, or `null`.
pub open spec fn json_opt_milli_mag(o: Option<u64>) -> Seq<char> {
    match o {
        Some(v) => dec_milli_mag(v as nat),
        None => null_seq(),
    }
}

/// A JSON value for an optional signed milli-unit quantity: a fixed-point
/// decimal, or `null`.
pub open spec fn json_opt_milli(o: Option<i64>) -> Seq<char> {
    match o {
        Some(v) => dec_milli(v as int),
        None => null_seq(),
    }
}

/// A JSON value for an optional string: a string literal, or `null`.
pub open spec fn json_opt_string(o: Option<String>) -> Seq<char> {
    match o {
        Some(s) => json_string(s@),
        None => null_seq(),
    }
}

impl ProductData {
    /// The JSON document that describes this record, field by field.
    pub open spec fn json(self) -> Seq<char> {
        "{\"id\":"@ + json_opt_int(self.id) + ",\"brand_id\":"@ + json_opt_int(self.brand_id)
            + ",\"category\":"@ + json_string(self.category@) + ",\"name\":"@ + json_string(
            self.name@,
        ) + ",\"slug\":"@ + json_string(self.slug@) + ",\"image_url\":"@ + json_opt_string(
            self.image_url,
        ) + ",\"description\":"@ + json_opt_string(self.description)
            + ",\"servings_per_container\":"@ + json_opt_int(self.servings_per_container)
            + ",\"serving_size_g\":"@ + json_opt_milli_mag(self.serving_size_milligrams)
            + ",\"transparency_score\":"@ + json_opt_int(self.transparency_score)
            + ",\"confidence_level\":"@ + json_opt_string(self.confidence_level)
            + ",\"dosage_rating\":"@ + json_opt_int(self.dosage_rating) + ",\"danger_rating\":"@
            + json_opt_int(self.danger_rating) + ",\"community_rating\":"@ + json_opt_milli(
            self.community_rating_milli,
        ) + ",\"total_reviews\":"@ + json_opt_int(self.total_reviews) + ",\"approval_status\":"@
            + dec_int(self.approval_status as int) + ",\"submitted_by\":"@ + json_string(
            self.submitted_by@,
        ) + ",\"reviewed_by\":"@ + json_opt_string(self.reviewed_by) + ",\"rejection_reason\":"@
            + json_opt_string(self.rejection_reason) + ",\"created_at\":"@ + dec_int(
            self.created_at as int,
        ) + ",\"updated_at\":"@ + dec_int(self.updated_at as int) + ",\"reviewed_at\":"@
            + json_opt_long(self.reviewed_at) + "}"@
    }

    /// Creates a fresh record at the given time: pending approval, zeroed
    /// ratings, both timestamps stamped with that time.
    pub fn new_at(
        name: String,
        slug: String,
        category: String,
        submitted_by: String,
        now: i64,
    ) -> (p: ProductData)
        ensures
            p.id is None,
            p.brand_id is None,
            p.category == category,
            p.name == name,
            p.slug == slug,
            p.image_url is None,
            p.description is None,
            p.servings_per_container is None,
            p.serving_size_milligrams is None,
            p.transparency_score == Some(0i32),
            p.confidence_level matches Some(c) && c@ == "estimated"@,
            p.dosage_rating == Some(0i32),
            p.danger_rating == Some(0i32),
            p.community_rating_milli == Some(0i64),
            p.total_reviews == Some(0i32),
            p.approval_status == 0,
            p.submitted_by == submitted_by,
            p.reviewed_by is None,
            p.rejection_reason is None,
            p.created_at == now,
            p.updated_at == now,
            p.reviewed_at is None,
    {
        ProductData {
            id: None,
            brand_id: None,
            category,
            name,
            slug,
            image_url: None,
            description: None,
            servings_per_container: None,
            serving_size_milligrams: None,
            transparency_score: Some(0),
            confidence_level: Some("estimated".to_owned()),
            dosage_rating: Some(0),
            danger_rating: Some(0),
            community_rating_milli: Some(0),
            total_reviews: Some(0),
            approval_status: 0,
            submitted_by,
            reviewed_by: None,
            rejection_reason: None,
            created_at: now,
            updated_at: now,
            reviewed_at: None,
        }
    }

    /// Creates a fresh record stamped with the system clock.
    pub fn new(name: String, slug: String, category: String, submitted_by: String) -> (p:
        ProductData)
        ensures
            p.name == name,
            p.slug == slug,
            p.category == category,
            p.submitted_by == submitted_by,
            p.approval_status == 0,
            p.created_at == p.updated_at,
            p.id is None,
            p.reviewed_by is None,
            p.reviewed_at is None,
    {
        let now = now_seconds();
        ProductData::new_at(name, slug, category, submitted_by, now)
    }

    /// Whether the record has been approved.
    pub fn is_approved(&self) -> (r: bool)
        ensures
            r == (self.approval_status == 1),
    {
        self.approval_status == 1
    }

    /// Whether the record is still pending review.
    pub fn is_pending(&self) -> (r: bool)
        ensures
            r == (self.approval_status == 0),
    {
        self.approval_status == 0
    }

    /// Whether the record has been denied.
    pub fn is_denied(&self) -> (r: bool)
        ensures
            r == (self.approval_status == -1),
    {
        self.approval_status == -1
    }

    /// Renders the record as its JSON document.
    pub fn to_json(&self) -> (r: String)
        ensures
            r@ == self.json(),
    {
        let ghost mut acc: Seq<char> = Seq::empty();
        let mut out = String::new();
        out.append("{\"id\":");
        proof {
            acc = "{\"id\":"@;
            assert(out@ =~= acc);
        }
        push_opt_i32(&mut out, &self.id);
        proof {
            acc = acc + json_opt_int(self.id);
            assert(out@ =~= acc);
        }
        out.append(",\"brand_id\":");
        proof {
            acc = acc + ",\"brand_id\":"@;
            assert(out@ =~= acc);
        }
        push_opt_i32(&mut out, &self.brand_id);
        proof {
            acc = acc + json_opt_int(self.brand_id);
            assert(out@ =~= acc);
        }
        out.append(",\"category\":");
        proof {
            acc = acc + ",\"category\":"@;
            assert(out@ =~= acc);
        }
        push_json_string(&mut out, self.category.as_str());
        proof {
            acc = acc + json_string(self.category@);
            assert(out@ =~= acc);
        }
        out.append(",\"name\":");
        proof {
            acc = acc + ",\"name\":"@;
            assert(out@ =~= acc);
        }
        push_json_string(&mut out, self.name.as_str());
        proof {
            acc = acc + json_string(self.name@);
            assert(out@ =~= acc);
        }
        out.append(",\"slug\":");
        proof {
            acc = acc + ",\"slug\":"@;
            assert(out@ =~= acc);
        }
        push_json_string(&mut out, self.slug.as_str());
        proof {
            acc = acc + json_string(self.slug@);
            assert(out@ =~= acc);
        }
        out.append(",\"image_url\":");
        proof {
            acc = acc + ",\"image_url\":"@;
            assert(out@ =~= acc);
        }
        push_opt_string(&mut out, &self.image_url);
        proof {
            acc = acc + json_opt_string(self.image_url);
            assert(out@ =~= acc);
        }
        out.append(",\"description\":");
        proof {
            acc = acc + ",\"description\":"@;
            assert(out@ =~= acc);
        }
        push_opt_string(&mut out, &self.description);
        proof {
            acc = acc + json_opt_string(self.description);
            assert(out@ =~= acc);
        }
        out.append(",\"servings_per_container\":");
        proof {
            acc = acc + ",\"servings_per_container\":"@;
            assert(out@ =~= acc);
        }
        push_opt_i32(&mut out, &self.servings_per_container);
        proof {
            acc = acc + json_opt_int(self.servings_per_container);
            assert(out@ =~= acc);
        }
        out.append(",\"serving_size_g\":");
        proof {
            acc = acc + ",\"serving_size_g\":"@;
            assert(out@ =~= acc);
        }
        push_opt_milli_mag(&mut out, &self.serving_size_milligrams);
        proof {
            acc = acc + json_opt_milli_mag(self.serving_size_milligrams);
            assert(out@ =~= acc);
        }
        out.append(",\"transparency_score\":");
        proof {
            acc = acc + ",\"transparency_score\":"@;
            assert(out@ =~= acc);
        }
        push_opt_i32(&mut out, &self.transparency_score);
        proof {
            acc = acc + json_opt_int(self.transparency_score);
            assert(out@ =~= acc);
        }
        out.append(",\"confidence_level\":");
        proof {
            acc = acc + ",\"confidence_level\":"@;
            assert(out@ =~= acc);
        }
        push_opt_string(&mut out, &self.confidence_level);
        proof {
            acc = acc + json_opt_string(self.confidence_level);
            assert(out@ =~= acc);
        }
        out.append(",\"dosage_rating\":");
        proof {
            acc = acc + ",\"dosage_rating\":"@;
            assert(out@ =~= acc);
        }
        push_opt_i32(&mut out, &self.dosage_rating);
        proof {
            acc = acc + json_opt_int(self.dosage_rating);
            assert(out@ =~= acc);
        }
        out.append(",\"danger_rating\":");
        proof {
            acc = acc + ",\"danger_rating\":"@;
            assert(out@ =~= acc);
        }
        push_opt_i32(&mut out, &self.danger_rating);
        proof {
            acc = acc + json_opt_int(self.danger_rating);
            assert(out@ =~= acc);
        }
        out.append(",\"community_rating\":");
        proof {
            acc = acc + ",\"community_rating\":"@;
            assert(out@ =~= acc);
        }
        push_opt_milli(&mut out, &self.community_rating_milli);
        proof {
            acc = acc + json_opt_milli(self.community_rating_milli);
            assert(out@ =~= acc);
        }
        out.append(",\"total_reviews\":");
        proof {
            acc = acc + ",\"total_reviews\":"@;
            assert(out@ =~= acc);
        }
        push_opt_i32(&mut out, &self.total_reviews);
        proof {
            acc = acc + json_opt_int(self.total_reviews);
            assert(out@ =~= acc);
        }
        out.append(",\"approval_status\":");
        proof {
            acc = acc + ",\"approval_status\":"@;
            assert(out@ =~= acc);
        }
        push_dec_i64(&mut out, self.approval_status as i64);
        proof {
            acc = acc + dec_int(self.approval_status as int);
            assert(out@ =~= acc);
        }
        out.append(",\"submitted_by\":");
        proof {
            acc = acc + ",\"submitted_by\":"@;
            assert(out@ =~= acc);
        }
        push_json_string(&mut out, self.submitted_by.as_str());
        proof {
            acc = acc + json_string(self.submitted_by@);
            assert(out@ =~= acc);
        }
        out.append(",\"reviewed_by\":");
        proof {
            acc = acc + ",\"reviewed_by\":"@;
            assert(out@ =~= acc);
        }
        push_opt_string(&mut out, &self.reviewed_by);
        proof {
            acc = acc + json_opt_string(self.reviewed_by);
            assert(out@ =~= acc);
        }
        out.append(",\"rejection_reason\":");
        proof {
            acc = acc + ",\"rejection_reason\":"@;
            assert(out@ =~= acc);
        }
        push_opt_string(&mut out, &self.rejection_reason);
        proof {
            acc = acc + json_opt_string(self.rejection_reason);
            assert(out@ =~= acc);
        }
        out.append(",\"created_at\":");
        proof {
            acc = acc + ",\"created_at\":"@;
            assert(out@ =~= acc);
        }
        push_dec_i64(&mut out, self.created_at);
        proof {
            acc = acc + dec_int(self.created_at as int);
            assert(out@ =~= acc);
        }
        out.append(",\"updated_at\":");
        proof {
            acc = acc + ",\"updated_at\":"@;
            assert(out@ =~= acc);
        }
        push_dec_i64(&mut out, self.updated_at);
        proof {
            acc = acc + dec_int(self.updated_at as int);
            assert(out@ =~= acc);
        }
        out.append(",\"reviewed_at\":");
        proof {
            acc = acc + ",\"reviewed_at\":"@;
            assert(out@ =~= acc);
        }
        push_opt_i64(&mut out, &self.reviewed_at);
        proof {
            acc = acc + json_opt_long(self.reviewed_at);
            assert(out@ =~= acc);
        }
        out.append("}");
        proof {
            acc = acc + "}"@;
            assert(out@ =~= acc);
        }
        proof {
            assert(out@ == self.json());
        }
        out
    }
}

/// The JSON documents of a batch of records, comma separated.
pub open spec fn batch_json_body(s: Seq<ProductData>) -> Seq<char>
    decreases s.len(),
{
    if s.len() == 0 {
        Seq::empty()
    } else if s.len() == 1 {
        s[0].json()
    } else {
        batch_json_body(s.drop_last()) + seq![','] + s.last().json()
    }
}

/// A batch of records as one JSON array document.
pub open spec fn batch_json(s: Seq<ProductData>) -> Seq<char> {
    seq!['['] + batch_json_body(s) + seq![']']
}

/// Appends the JSON value for an optional integer.
fn push_opt_i32(out: &mut String, o: &Option<i32>)
    ensures
        final(out)@ == old(out)@ + json_opt_int(*o),
{
    match o {
        Some(v) => push_dec_i64(out, *v as i64),
        None => push_null(out),
    }
}

/// Appends the JSON value for an optional long integer.
fn push_opt_i64(out: &mut String, o: &Option<i64>)
    ensures
        final(out)@ == old(out)@ + json_opt_long(*o),
{
    match o {
        Some(v) => push_dec_i64(out, *v),
        None => push_null(out),
    }
}

/// Appends the JSON value for an optional milli-unit magnitude.
fn push_opt_milli_mag(out: &mut String, o: &Option<u64>)
    ensures
        final(out)@ == old(out)@ + json_opt_milli_mag(*o),
{
    match o {
        Some(v) => push_milli_mag(out, *v),
        None => push_null(out),
    }
}

/// Appends the JSON value for an optional signed milli-unit quantity.
fn push_opt_milli(out: &mut String, o: &Option<i64>)
    ensures
        final(out)@ == old(out)@ + json_opt_milli(*o),
{
    match o {
        Some(v) => push_milli(out, *v),
        None => push_null(out),
    }
}

/// Appends the JSON value for an optional string.
fn push_opt_string(out: &mut String, o: &Option<String>)
    ensures
        final(out)@ == old(out)@ + json_opt_string(*o),
{
    match o {
        Some(s) => push_json_string(out, s.as_str()),
        None => push_null(out),
    }
}

} // verus!
