//! Where things are: the addresses of the upstream services and the layout
//! of the cache on local storage.
//!
//! The cache root holds one directory per user, named by the user's number
//! in decimal. In it, the file `data` holds the user's descriptor as text,
//! and each image lies under the file name it was asked for.

use crate::format::{extension_of, format_of_path, Format};
use crate::user::{
    all_digits, decimal_digits, is_digit, lemma_decimal_digits_denote, UserId,
};
use vstd::prelude::*;
use vstd::string::StringExecFns;

verus! {

/// The fixed surroundings of a coordinator.
#[derive(Debug, PartialEq, Eq)]
pub struct Config {
    /// Base address of the account service, without a trailing slash.
    pub account_base: String,
    /// Base address of the render service, without a trailing slash.
    pub render_base: String,
    /// Directory that holds the cache, without a trailing slash.
    pub cache_root: String,
}

/// A [`Config`] as a mathematical value.
pub struct ConfigView {
    pub account_base: Seq<char>,
    pub render_base: Seq<char>,
    pub cache_root: Seq<char>,
}

impl View for Config {
    type V = ConfigView;

    open spec fn view(&self) -> ConfigView {
        ConfigView {
            account_base: self.account_base@,
            render_base: self.render_base@,
            cache_root: self.cache_root@,
        }
    }
}

impl ConfigView {
    /// The address that yields a user's current descriptor.
    pub open spec fn descriptor_url(self, user: int) -> Seq<char> {
        self.account_base + "/api/v2/users/"@ + decimal_digits(user as nat) + "/mii"@
    }

    /// The address that yields the image of a descriptor in a format.
    pub open spec fn render_url(self, format: Format, descriptor: Seq<char>) -> Seq<char> {
        self.render_base + "/miis/image."@ + format.spec_extension() + "?data="@ + descriptor
    }

    /// The directory that holds what is cached for a user.
    pub open spec fn partition_dir(self, user: int) -> Seq<char> {
        self.cache_root + "/"@ + decimal_digits(user as nat)
    }

    /// The file that holds a user's descriptor.
    pub open spec fn descriptor_path(self, user: int) -> Seq<char> {
        self.partition_dir(user) + "/data"@
    }

    /// The file that holds the image a user was served under `file`.
    pub open spec fn image_path(self, user: int, file: Seq<char>) -> Seq<char> {
        self.partition_dir(user) + "/"@ + file
    }
}

impl Config {
    /// Surroundings with the given service addresses and cache directory.
    pub fn new(account_base: String, render_base: String, cache_root: String) -> (r: Config)
        ensures
            r.account_base == account_base,
            r.render_base == render_base,
            r.cache_root == cache_root,
    {
        Config { account_base, render_base, cache_root }
    }

    /// The address that yields a user's current descriptor.
    pub fn descriptor_url(&self, user: UserId) -> (r: String)
        ensures
            r@ == self@.descriptor_url(user@),
    {
        let mut url = self.account_base.clone();
        url.append("/api/v2/users/");
        user.append_to(&mut url);
        url.append("/mii");
        url
    }

    /// The address that yields the image of a descriptor in a format.
    pub fn render_url(&self, format: Format, descriptor: &str) -> (r: String)
        ensures
            r@ == self@.render_url(format, descriptor@),
    {
        let mut url = self.render_base.clone();
        url.append("/miis/image.");
        url.append(format.extension());
        url.append("?data=");
        url.append(descriptor);
        url
    }

    /// The directory that holds what is cached for a user.
    pub fn partition_dir(&self, user: UserId) -> (r: String)
        ensures
            r@ == self@.partition_dir(user@),
    {
        let mut path = self.cache_root.clone();
        path.append("/");
        user.append_to(&mut path);
        path
    }

    /// The file that holds a user's descriptor.
    pub fn descriptor_path(&self, user: UserId) -> (r: String)
        ensures
            r@ == self@.descriptor_path(user@),
    {
        let mut path = self.partition_dir(user);
        path.append("/data");
        path
    }

    /// The file that holds the image a user was served under `file`.
    pub fn image_path(&self, user: UserId, file: &str) -> (r: String)
        ensures
            r@ == self@.image_path(user@, file@),
    {
        let mut path = self.partition_dir(user);
        path.append("/");
        path.append(file);
        path
    }
}

/// What follows a common beginning is the same where the wholes are.
proof fn lemma_same_beginning(start: Seq<char>, one: Seq<char>, other: Seq<char>)
    requires
        start + one == start + other,
    ensures
        one == other,
{
    let n = start.len() as int;
    assert((start + one).len() == n + one.len());
    assert((start + other).len() == n + other.len());
    assert forall|i: int| 0 <= i < one.len() implies one[i] == other[i] by {
        assert((start + one)[n + i] == one[i]);
        assert((start + other)[n + i] == other[i]);
    }
    assert(one =~= other);
}

/// Two runs of digits, each followed by a slash, are the same where what
/// they begin is the same.
proof fn lemma_digits_before_slash(
    one: Seq<char>,
    rest_one: Seq<char>,
    other: Seq<char>,
    rest_other: Seq<char>,
)
    requires
        all_digits(one),
        all_digits(other),
        one + seq!['/'] + rest_one == other + seq!['/'] + rest_other,
    ensures
        one == other,
{
    let whole = one + seq!['/'] + rest_one;
    let same = other + seq!['/'] + rest_other;
    let m = one.len() as int;
    let n = other.len() as int;
    assert(whole[m] == '/');
    assert(same[n] == '/');
    if m < n {
        assert(same[m] == other[m]);
        assert(is_digit(other[m]));
    } else if n < m {
        assert(whole[n] == one[n]);
        assert(is_digit(one[n]));
    } else {
        assert forall|i: int| 0 <= i < m implies one[i] == other[i] by {
            assert(whole[i] == one[i]);
            assert(same[i] == other[i]);
        }
        assert(one =~= other);
    }
}

/// What is stored for one user lies apart from what is stored for any
/// other: no directory, descriptor file or image file of the one has the
/// path of one of the other, whatever the images are called.
pub proof fn law_users_are_stored_apart(
    config: ConfigView,
    one: int,
    other: int,
    file_one: Seq<char>,
    file_other: Seq<char>,
)
    requires
        0 < one,
        0 < other,
        one != other,
    ensures
        config.partition_dir(one) != config.partition_dir(other),
        config.descriptor_path(one) != config.descriptor_path(other),
        config.image_path(one, file_one) != config.image_path(other, file_other),
        config.descriptor_path(one) != config.image_path(other, file_other),
{
    reveal_strlit("/");
    reveal_strlit("/data");
    let start = config.cache_root + "/"@;
    let a = decimal_digits(one as nat);
    let b = decimal_digits(other as nat);
    let slash = seq!['/'];
    let data = seq!['d', 'a', 't', 'a'];
    lemma_decimal_digits_denote(one as nat);
    lemma_decimal_digits_denote(other as nat);
    assert("/"@ =~= slash);
    assert("/data"@ =~= slash + data);
    assert(config.descriptor_path(one) =~= start + (a + slash + data));
    assert(config.descriptor_path(other) =~= start + (b + slash + data));
    assert(config.image_path(one, file_one) =~= start + (a + slash + file_one));
    assert(config.image_path(other, file_other) =~= start + (b + slash + file_other));
    if config.partition_dir(one) == config.partition_dir(other) {
        lemma_same_beginning(start, a, b);
    }
    if config.descriptor_path(one) == config.descriptor_path(other) {
        lemma_same_beginning(start, a + slash + data, b + slash + data);
        lemma_digits_before_slash(a, data, b, data);
    }
    if config.image_path(one, file_one) == config.image_path(other, file_other) {
        lemma_same_beginning(start, a + slash + file_one, b + slash + file_other);
        lemma_digits_before_slash(a, file_one, b, file_other);
    }
    if config.descriptor_path(one) == config.image_path(other, file_other) {
        lemma_same_beginning(start, a + slash + data, b + slash + file_other);
        lemma_digits_before_slash(a, data, b, file_other);
    }
}

/// A file name that asks for a served format is not the name of the file
/// that holds the descriptor: the two lie apart in the user's directory.
pub proof fn law_images_lie_apart_from_the_descriptor(config: ConfigView, user: int, file: Seq<char>)
    requires
        format_of_path(file) is Some,
    ensures
        config.image_path(user, file) != config.descriptor_path(user),
{
    let dir = config.partition_dir(user);
    reveal_strlit("/");
    reveal_strlit("/data");
    if config.image_path(user, file) == config.descriptor_path(user) {
        let image = dir + "/"@ + file;
        let data = dir + "/data"@;
        let n = dir.len() as int;
        assert(image.len() == data.len());
        assert(file.len() == 4);
        assert(file[3] == image[n + 4]);
        assert(file[2] == image[n + 3]);
        assert(file[1] == image[n + 2]);
        assert(file[0] == image[n + 1]);
        assert(file =~= seq!['d', 'a', 't', 'a']);
        reveal_with_fuel(extension_of, 6);
        assert(file.drop_last() =~= seq!['d', 'a', 't']);
        assert(file.drop_last().drop_last() =~= seq!['d', 'a']);
        assert(file.drop_last().drop_last().drop_last() =~= seq!['d']);
        assert(file.drop_last().drop_last().drop_last().drop_last() =~= Seq::<char>::empty());
        assert(extension_of(file) is None);
    }
}

} // verus!
