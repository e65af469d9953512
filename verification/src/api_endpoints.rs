use crate::query_builder::{
    note_page_size, page_size_rule, page_size_warnings, texts, with_page_size, with_param,
};
use crate::request_sender::{
    opening, pairs_text, ApiRequest, Fetch, PageWalk, RequestSender, ResourceFetch, Walk,
};
use crate::timestamp::Timestamp;
use crate::types::{
    Account, AccountType, Category, OwnershipType, Tag, Transaction, TransactionStatus,
};
use vstd::prelude::*;
use vstd::string::*;

verus! {

/// The address under which the service is reached unless another is given.
pub const BASE_URL: &'static str = "https://api.up.com.au/api/v1";

/// The address of a collection: the base address followed by the path.
fn collection_url(base_url: &str, path: &str) -> (url: String)
    ensures
        url@ == base_url@ + path@,
{
    let mut url = String::from_str(base_url);
    url.append(path);
    url
}

/// The address of one resource: the base address, the path of its
/// collection, and its identifier.
fn resource_url(base_url: &str, path: &str, id: &str) -> (url: String)
    ensures
        url@ == base_url@ + path@ + id@,
{
    let mut url = collection_url(base_url, path);
    url.append(id);
    url
}

/// The request for the list of accounts.
pub struct ListAccounts {
    url: String,
    api_key: String,
    params: Vec<(String, String)>,
    warnings: Vec<String>,
}

impl ApiRequest for ListAccounts {
    type T = Vec<Account>;

    closed spec fn url(&self) -> Seq<char> {
        self.url@
    }

    closed spec fn params(&self) -> Seq<(Seq<char>, Seq<char>)> {
        pairs_text(self.params@)
    }

    closed spec fn credential(&self) -> Seq<char> {
        self.api_key@
    }

    fn get_url(&self) -> (url: &String) {
        &self.url
    }

    fn get_params(&self) -> (params: &Vec<(String, String)>) {
        &self.params
    }

    fn get_api_key(&self) -> (api_key: &String) {
        &self.api_key
    }
}

impl ListAccounts {
    /// A request for all accounts, without parameters, at the usual address of
    /// the service.
    pub fn new(api_key: &String) -> (request: ListAccounts)
        ensures
            request.url() == BASE_URL@ + "/accounts"@,
            request.params() == Seq::<(Seq<char>, Seq<char>)>::empty(),
            request.credential() == api_key@,
            request.warnings() == Seq::<Seq<char>>::empty(),
    {
        ListAccounts::with_base_url(BASE_URL, api_key)
    }

    /// A request for all accounts, without parameters, at a service that is
    /// reached under `base_url`.
    pub fn with_base_url(base_url: &str, api_key: &String) -> (request: ListAccounts)
        ensures
            request.url() == base_url@ + "/accounts"@,
            request.params() == Seq::<(Seq<char>, Seq<char>)>::empty(),
            request.credential() == api_key@,
            request.warnings() == Seq::<Seq<char>>::empty(),
    {
        let request = ListAccounts {
            url: collection_url(base_url, "/accounts"),
            api_key: api_key.clone(),
            params: Vec::new(),
            warnings: Vec::new(),
        };
        assert(request.params() =~= Seq::<(Seq<char>, Seq<char>)>::empty());
        assert(request.warnings() =~= Seq::<Seq<char>>::empty());
        request
    }

    /// The warnings recorded while the request was built, in order: one for
    /// each parameter that was dropped.
    pub closed spec fn warnings(&self) -> Seq<Seq<char>> {
        texts(self.warnings@)
    }

    /// The warnings recorded while the request was built.
    pub fn get_warnings(&self) -> (warnings: &Vec<String>)
        ensures
            texts(warnings@) == self.warnings(),
    {
        &self.warnings
    }

    /// Asks for pages of `page_size` items. A size from 1 to 30 adds the
    /// parameter `page[size]`. Any other size is dropped with a warning, and
    /// the request stays as it was otherwise.
    pub fn page_size(self, page_size: i32) -> (request: ListAccounts)
        ensures
            request.url() == self.url(),
            request.credential() == self.credential(),
            request.params() == page_size_rule(self.params(), page_size as int, 30),
            request.warnings() == page_size_warnings(self.warnings(), page_size as int, 30),
    {
        ListAccounts {
            url: self.url,
            api_key: self.api_key,
            params: with_page_size(self.params, page_size, 30),
            warnings: note_page_size(self.warnings, page_size, 30),
        }
    }

    /// Keeps to the accounts of one kind.
    pub fn account_type(self, account_type: AccountType) -> (request: ListAccounts)
        ensures
            request.url() == self.url(),
            request.credential() == self.credential(),
            request.params() == self.params().push(("filter[accountType]"@, account_type.text())),
            request.warnings() == self.warnings(),
    {
        ListAccounts {
            url: self.url,
            api_key: self.api_key,
            params: with_param(self.params, "filter[accountType]", account_type.to_string()),
            warnings: self.warnings,
        }
    }

    /// Keeps to the accounts of one ownership.
    pub fn ownership_type(self, ownership_type: OwnershipType) -> (request: ListAccounts)
        ensures
            request.url() == self.url(),
            request.credential() == self.credential(),
            request.params() == self.params().push(
                ("filter[ownershipType]"@, ownership_type.text()),
            ),
            request.warnings() == self.warnings(),
    {
        ListAccounts {
            url: self.url,
            api_key: self.api_key,
            params: with_param(self.params, "filter[ownershipType]", ownership_type.to_string()),
            warnings: self.warnings,
        }
    }

    /// Opens the fetch of the whole list, page after page. The request is
    /// used up: it is sent once.
    pub fn send(self) -> (started: (PageWalk<Account>, Fetch))
        ensures
            started.0@ == (Walk { credential: self.credential(), items: Seq::<Account>::empty() }),
            started.1@ == opening(self),
    {
        RequestSender::send_paginate::<Account, ListAccounts>(self)
    }
}

/// The request for one account.
pub struct RetrieveAccount {
    url: String,
    api_key: String,
    params: Vec<(String, String)>,
}

impl ApiRequest for RetrieveAccount {
    type T = Account;

    closed spec fn url(&self) -> Seq<char> {
        self.url@
    }

    closed spec fn params(&self) -> Seq<(Seq<char>, Seq<char>)> {
        pairs_text(self.params@)
    }

    closed spec fn credential(&self) -> Seq<char> {
        self.api_key@
    }

    fn get_url(&self) -> (url: &String) {
        &self.url
    }

    fn get_params(&self) -> (params: &Vec<(String, String)>) {
        &self.params
    }

    fn get_api_key(&self) -> (api_key: &String) {
        &self.api_key
    }
}

impl RetrieveAccount {
    /// A request for the account with the identifier `account_id`, at the usual
    /// address of the service.
    pub fn new(api_key: &String, account_id: String) -> (request: RetrieveAccount)
        ensures
            request.url() == BASE_URL@ + "/accounts/"@ + account_id@,
            request.params() == Seq::<(Seq<char>, Seq<char>)>::empty(),
            request.credential() == api_key@,
    {
        RetrieveAccount::with_base_url(BASE_URL, api_key, account_id)
    }

    /// A request for the account with the identifier `account_id`, at a service that
    /// is reached under `base_url`.
    pub fn with_base_url(base_url: &str, api_key: &String, account_id: String) -> (request:
        RetrieveAccount)
        ensures
            request.url() == base_url@ + "/accounts/"@ + account_id@,
            request.params() == Seq::<(Seq<char>, Seq<char>)>::empty(),
            request.credential() == api_key@,
    {
        let request = RetrieveAccount {
            url: resource_url(base_url, "/accounts/", account_id.as_str()),
            api_key: api_key.clone(),
            params: Vec::new(),
        };
        assert(request.params() =~= Seq::<(Seq<char>, Seq<char>)>::empty());
        request
    }

    /// Opens the fetch of the resource. The request is used up: it is sent
    /// once.
    pub fn send(self) -> (started: (ResourceFetch, Fetch))
        ensures
            started.1@ == opening(self),
    {
        RequestSender::send::<RetrieveAccount>(self)
    }
}

/// The request for the list of categories.
pub struct ListCategories {
    url: String,
    api_key: String,
    params: Vec<(String, String)>,
}

impl ApiRequest for ListCategories {
    type T = Vec<Category>;

    closed spec fn url(&self) -> Seq<char> {
        self.url@
    }

    closed spec fn params(&self) -> Seq<(Seq<char>, Seq<char>)> {
        pairs_text(self.params@)
    }

    closed spec fn credential(&self) -> Seq<char> {
        self.api_key@
    }

    fn get_url(&self) -> (url: &String) {
        &self.url
    }

    fn get_params(&self) -> (params: &Vec<(String, String)>) {
        &self.params
    }

    fn get_api_key(&self) -> (api_key: &String) {
        &self.api_key
    }
}

impl ListCategories {
    /// A request for all categories, without parameters, at the usual address of
    /// the service.
    pub fn new(api_key: &String) -> (request: ListCategories)
        ensures
            request.url() == BASE_URL@ + "/categories"@,
            request.params() == Seq::<(Seq<char>, Seq<char>)>::empty(),
            request.credential() == api_key@,
    {
        ListCategories::with_base_url(BASE_URL, api_key)
    }

    /// A request for all categories, without parameters, at a service that is
    /// reached under `base_url`.
    pub fn with_base_url(base_url: &str, api_key: &String) -> (request: ListCategories)
        ensures
            request.url() == base_url@ + "/categories"@,
            request.params() == Seq::<(Seq<char>, Seq<char>)>::empty(),
            request.credential() == api_key@,
    {
        let request = ListCategories {
            url: collection_url(base_url, "/categories"),
            api_key: api_key.clone(),
            params: Vec::new(),
        };
        assert(request.params() =~= Seq::<(Seq<char>, Seq<char>)>::empty());
        request
    }

    /// Keeps to the categories directly under `parent`.
    pub fn parent(self, parent: Category) -> (request: ListCategories)
        ensures
            request.url() == self.url(),
            request.credential() == self.credential(),
            request.params() == self.params().push(("filter[parent]"@, parent.id@)),
    {
        ListCategories {
            url: self.url,
            api_key: self.api_key,
            params: with_param(self.params, "filter[parent]", parent.to_param().clone()),
        }
    }

    /// Opens the fetch of the whole list, page after page. The request is
    /// used up: it is sent once.
    pub fn send(self) -> (started: (PageWalk<Category>, Fetch))
        ensures
            started.0@ == (Walk { credential: self.credential(), items: Seq::<Category>::empty() }),
            started.1@ == opening(self),
    {
        RequestSender::send_paginate::<Category, ListCategories>(self)
    }
}

/// The request for one category.
pub struct RetrieveCategory {
    url: String,
    api_key: String,
    params: Vec<(String, String)>,
}

impl ApiRequest for RetrieveCategory {
    type T = Category;

    closed spec fn url(&self) -> Seq<char> {
        self.url@
    }

    closed spec fn params(&self) -> Seq<(Seq<char>, Seq<char>)> {
        pairs_text(self.params@)
    }

    closed spec fn credential(&self) -> Seq<char> {
        self.api_key@
    }

    fn get_url(&self) -> (url: &String) {
        &self.url
    }

    fn get_params(&self) -> (params: &Vec<(String, String)>) {
        &self.params
    }

    fn get_api_key(&self) -> (api_key: &String) {
        &self.api_key
    }
}

impl RetrieveCategory {
    /// A request for the category with the identifier `category_id`, at the usual
    /// address of the service.
    pub fn new(api_key: &String, category_id: String) -> (request: RetrieveCategory)
        ensures
            request.url() == BASE_URL@ + "/categories/"@ + category_id@,
            request.params() == Seq::<(Seq<char>, Seq<char>)>::empty(),
            request.credential() == api_key@,
    {
        RetrieveCategory::with_base_url(BASE_URL, api_key, category_id)
    }

    /// A request for the category with the identifier `category_id`, at a service that
    /// is reached under `base_url`.
    pub fn with_base_url(base_url: &str, api_key: &String, category_id: String) -> (request:
        RetrieveCategory)
        ensures
            request.url() == base_url@ + "/categories/"@ + category_id@,
            request.params() == Seq::<(Seq<char>, Seq<char>)>::empty(),
            request.credential() == api_key@,
    {
        let request = RetrieveCategory {
            url: resource_url(base_url, "/categories/", category_id.as_str()),
            api_key: api_key.clone(),
            params: Vec::new(),
        };
        assert(request.params() =~= Seq::<(Seq<char>, Seq<char>)>::empty());
        request
    }

    /// Opens the fetch of the resource. The request is used up: it is sent
    /// once.
    pub fn send(self) -> (started: (ResourceFetch, Fetch))
        ensures
            started.1@ == opening(self),
    {
        RequestSender::send::<RetrieveCategory>(self)
    }
}

/// The request for the list of tags.
pub struct ListTags {
    url: String,
    api_key: String,
    params: Vec<(String, String)>,
    warnings: Vec<String>,
}

impl ApiRequest for ListTags {
    type T = Vec<Tag>;

    closed spec fn url(&self) -> Seq<char> {
        self.url@
    }

    closed spec fn params(&self) -> Seq<(Seq<char>, Seq<char>)> {
        pairs_text(self.params@)
    }

    closed spec fn credential(&self) -> Seq<char> {
        self.api_key@
    }

    fn get_url(&self) -> (url: &String) {
        &self.url
    }

    fn get_params(&self) -> (params: &Vec<(String, String)>) {
        &self.params
    }

    fn get_api_key(&self) -> (api_key: &String) {
        &self.api_key
    }
}

impl ListTags {
    /// A request for all tags, without parameters, at the usual address of
    /// the service.
    pub fn new(api_key: &String) -> (request: ListTags)
        ensures
            request.url() == BASE_URL@ + "/tags"@,
            request.params() == Seq::<(Seq<char>, Seq<char>)>::empty(),
            request.credential() == api_key@,
            request.warnings() == Seq::<Seq<char>>::empty(),
    {
        ListTags::with_base_url(BASE_URL, api_key)
    }

    /// A request for all tags, without parameters, at a service that is
    /// reached under `base_url`.
    pub fn with_base_url(base_url: &str, api_key: &String) -> (request: ListTags)
        ensures
            request.url() == base_url@ + "/tags"@,
            request.params() == Seq::<(Seq<char>, Seq<char>)>::empty(),
            request.credential() == api_key@,
            request.warnings() == Seq::<Seq<char>>::empty(),
    {
        let request = ListTags {
            url: collection_url(base_url, "/tags"),
            api_key: api_key.clone(),
            params: Vec::new(),
            warnings: Vec::new(),
        };
        assert(request.params() =~= Seq::<(Seq<char>, Seq<char>)>::empty());
        assert(request.warnings() =~= Seq::<Seq<char>>::empty());
        request
    }

    /// The warnings recorded while the request was built, in order: one for
    /// each parameter that was dropped.
    pub closed spec fn warnings(&self) -> Seq<Seq<char>> {
        texts(self.warnings@)
    }

    /// The warnings recorded while the request was built.
    pub fn get_warnings(&self) -> (warnings: &Vec<String>)
        ensures
            texts(warnings@) == self.warnings(),
    {
        &self.warnings
    }

    /// Asks for pages of `page_size` items. A size from 1 to 50 adds the
    /// parameter `page[size]`. Any other size is dropped with a warning, and
    /// the request stays as it was otherwise.
    pub fn page_size(self, page_size: i32) -> (request: ListTags)
        ensures
            request.url() == self.url(),
            request.credential() == self.credential(),
            request.params() == page_size_rule(self.params(), page_size as int, 50),
            request.warnings() == page_size_warnings(self.warnings(), page_size as int, 50),
    {
        ListTags {
            url: self.url,
            api_key: self.api_key,
            params: with_page_size(self.params, page_size, 50),
            warnings: note_page_size(self.warnings, page_size, 50),
        }
    }

    /// Opens the fetch of the whole list, page after page. The request is
    /// used up: it is sent once.
    pub fn send(self) -> (started: (PageWalk<Tag>, Fetch))
        ensures
            started.0@ == (Walk { credential: self.credential(), items: Seq::<Tag>::empty() }),
            started.1@ == opening(self),
    {
        RequestSender::send_paginate::<Tag, ListTags>(self)
    }
}

/// The request for the list of transactions.
pub struct ListTransactions {
    url: String,
    api_key: String,
    params: Vec<(String, String)>,
    warnings: Vec<String>,
}

impl ApiRequest for ListTransactions {
    type T = Vec<Transaction>;

    closed spec fn url(&self) -> Seq<char> {
        self.url@
    }

    closed spec fn params(&self) -> Seq<(Seq<char>, Seq<char>)> {
        pairs_text(self.params@)
    }

    closed spec fn credential(&self) -> Seq<char> {
        self.api_key@
    }

    fn get_url(&self) -> (url: &String) {
        &self.url
    }

    fn get_params(&self) -> (params: &Vec<(String, String)>) {
        &self.params
    }

    fn get_api_key(&self) -> (api_key: &String) {
        &self.api_key
    }
}

impl ListTransactions {
    /// A request for all transactions, without parameters, at the usual address of
    /// the service.
    pub fn new(api_key: &String) -> (request: ListTransactions)
        ensures
            request.url() == BASE_URL@ + "/transactions"@,
            request.params() == Seq::<(Seq<char>, Seq<char>)>::empty(),
            request.credential() == api_key@,
            request.warnings() == Seq::<Seq<char>>::empty(),
    {
        ListTransactions::with_base_url(BASE_URL, api_key)
    }

    /// A request for all transactions, without parameters, at a service that is
    /// reached under `base_url`.
    pub fn with_base_url(base_url: &str, api_key: &String) -> (request: ListTransactions)
        ensures
            request.url() == base_url@ + "/transactions"@,
            request.params() == Seq::<(Seq<char>, Seq<char>)>::empty(),
            request.credential() == api_key@,
            request.warnings() == Seq::<Seq<char>>::empty(),
    {
        let request = ListTransactions {
            url: collection_url(base_url, "/transactions"),
            api_key: api_key.clone(),
            params: Vec::new(),
            warnings: Vec::new(),
        };
        assert(request.params() =~= Seq::<(Seq<char>, Seq<char>)>::empty());
        assert(request.warnings() =~= Seq::<Seq<char>>::empty());
        request
    }

    /// The warnings recorded while the request was built, in order: one for
    /// each parameter that was dropped.
    pub closed spec fn warnings(&self) -> Seq<Seq<char>> {
        texts(self.warnings@)
    }

    /// The warnings recorded while the request was built.
    pub fn get_warnings(&self) -> (warnings: &Vec<String>)
        ensures
            texts(warnings@) == self.warnings(),
    {
        &self.warnings
    }

    /// Asks for pages of `page_size` items. A size from 1 to 30 adds the
    /// parameter `page[size]`. Any other size is dropped with a warning, and
    /// the request stays as it was otherwise.
    pub fn page_size(self, page_size: i32) -> (request: ListTransactions)
        ensures
            request.url() == self.url(),
            request.credential() == self.credential(),
            request.params() == page_size_rule(self.params(), page_size as int, 30),
            request.warnings() == page_size_warnings(self.warnings(), page_size as int, 30),
    {
        ListTransactions {
            url: self.url,
            api_key: self.api_key,
            params: with_page_size(self.params, page_size, 30),
            warnings: note_page_size(self.warnings, page_size, 30),
        }
    }

    /// Keeps to the transactions of one status.
    pub fn status(self, transaction_status: TransactionStatus) -> (request: ListTransactions)
        ensures
            request.url() == self.url(),
            request.credential() == self.credential(),
            request.params() == self.params().push(("filter[status]"@, transaction_status.text())),
            request.warnings() == self.warnings(),
    {
        ListTransactions {
            url: self.url,
            api_key: self.api_key,
            params: with_param(self.params, "filter[status]", transaction_status.to_string()),
            warnings: self.warnings,
        }
    }

    /// Keeps to the transactions at or after `date_time`, which is sent as
    /// RFC 3339 text.
    pub fn since(self, date_time: Timestamp) -> (request: ListTransactions)
        ensures
            request.url() == self.url(),
            request.credential() == self.credential(),
            request.params() == self.params().push(("filter[since]"@, date_time.text())),
            request.warnings() == self.warnings(),
    {
        ListTransactions {
            url: self.url,
            api_key: self.api_key,
            params: with_param(self.params, "filter[since]", date_time.to_rfc3339()),
            warnings: self.warnings,
        }
    }

    /// Keeps to the transactions before `date_time`, which is sent as RFC 3339
    /// text.
    pub fn until(self, date_time: Timestamp) -> (request: ListTransactions)
        ensures
            request.url() == self.url(),
            request.credential() == self.credential(),
            request.params() == self.params().push(("filter[until]"@, date_time.text())),
            request.warnings() == self.warnings(),
    {
        ListTransactions {
            url: self.url,
            api_key: self.api_key,
            params: with_param(self.params, "filter[until]", date_time.to_rfc3339()),
            warnings: self.warnings,
        }
    }

    /// Keeps to the transactions of one category.
    pub fn category(self, category: Category) -> (request: ListTransactions)
        ensures
            request.url() == self.url(),
            request.credential() == self.credential(),
            request.params() == self.params().push(("filter[category]"@, category.id@)),
            request.warnings() == self.warnings(),
    {
        ListTransactions {
            url: self.url,
            api_key: self.api_key,
            params: with_param(self.params, "filter[category]", category.to_param().clone()),
            warnings: self.warnings,
        }
    }

    /// Keeps to the transactions that carry one tag.
    pub fn tag(self, tag: Tag) -> (request: ListTransactions)
        ensures
            request.url() == self.url(),
            request.credential() == self.credential(),
            request.params() == self.params().push(("filter[tag]"@, tag.id@)),
            request.warnings() == self.warnings(),
    {
        ListTransactions {
            url: self.url,
            api_key: self.api_key,
            params: with_param(self.params, "filter[tag]", tag.to_param().clone()),
            warnings: self.warnings,
        }
    }

    /// Opens the fetch of the whole list, page after page. The request is
    /// used up: it is sent once.
    pub fn send(self) -> (started: (PageWalk<Transaction>, Fetch))
        ensures
            started.0@ == (Walk {
                credential: self.credential(),
                items: Seq::<Transaction>::empty(),
            }),
            started.1@ == opening(self),
    {
        RequestSender::send_paginate::<Transaction, ListTransactions>(self)
    }
}

/// The request for one transaction.
pub struct RetrieveTransaction {
    url: String,
    api_key: String,
    params: Vec<(String, String)>,
}

impl ApiRequest for RetrieveTransaction {
    type T = Transaction;

    closed spec fn url(&self) -> Seq<char> {
        self.url@
    }

    closed spec fn params(&self) -> Seq<(Seq<char>, Seq<char>)> {
        pairs_text(self.params@)
    }

    closed spec fn credential(&self) -> Seq<char> {
        self.api_key@
    }

    fn get_url(&self) -> (url: &String) {
        &self.url
    }

    fn get_params(&self) -> (params: &Vec<(String, String)>) {
        &self.params
    }

    fn get_api_key(&self) -> (api_key: &String) {
        &self.api_key
    }
}

impl RetrieveTransaction {
    /// A request for the transaction with the identifier `transaction_id`, at the usual
    /// address of the service.
    pub fn new(api_key: &String, transaction_id: String) -> (request: RetrieveTransaction)
        ensures
            request.url() == BASE_URL@ + "/transactions/"@ + transaction_id@,
            request.params() == Seq::<(Seq<char>, Seq<char>)>::empty(),
            request.credential() == api_key@,
    {
        RetrieveTransaction::with_base_url(BASE_URL, api_key, transaction_id)
    }

    /// A request for the transaction with the identifier `transaction_id`, at a service that
    /// is reached under `base_url`.
    pub fn with_base_url(base_url: &str, api_key: &String, transaction_id: String) -> (request:
        RetrieveTransaction)
        ensures
            request.url() == base_url@ + "/transactions/"@ + transaction_id@,
            request.params() == Seq::<(Seq<char>, Seq<char>)>::empty(),
            request.credential() == api_key@,
    {
        let request = RetrieveTransaction {
            url: resource_url(base_url, "/transactions/", transaction_id.as_str()),
            api_key: api_key.clone(),
            params: Vec::new(),
        };
        assert(request.params() =~= Seq::<(Seq<char>, Seq<char>)>::empty());
        request
    }

    /// Opens the fetch of the resource. The request is used up: it is sent
    /// once.
    pub fn send(self) -> (started: (ResourceFetch, Fetch))
        ensures
            started.1@ == opening(self),
    {
        RequestSender::send::<RetrieveTransaction>(self)
    }
}

} // verus!
