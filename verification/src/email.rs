//! The outbound email collaborator, as the verified core sees it: a client
//! that records every delivered message and either accepts or refuses a send.
//! The real transport lives outside the core; substituting this deterministic
//! client lets the workflow be verified for both outcomes of a send.

use vstd::prelude::*;

verus! {

/// One email as handed to the transport.
#[derive(Debug)]
pub struct EmailMessage {
    pub recipient: String,
    pub subject: String,
    pub plain_body: String,
    pub html_body: String,
}

/// Spec-level image of one email.
#[verifier::ext_equal]
pub struct EmailMessageModel {
    pub recipient: Seq<char>,
    pub subject: Seq<char>,
    pub plain_body: Seq<char>,
    pub html_body: Seq<char>,
}

impl View for EmailMessage {
    type V = EmailMessageModel;

    open spec fn view(&self) -> EmailMessageModel {
        EmailMessageModel {
            recipient: self.recipient@,
            subject: self.subject@,
            plain_body: self.plain_body@,
            html_body: self.html_body@,
        }
    }
}

/// Failure reported by the email transport.
#[derive(Clone, Copy, Debug, PartialEq, Eq, Structural)]
pub struct EmailError;

/// The email client: `sent` holds every message delivered so far, and
/// `transport_up` decides whether the next send succeeds.
#[derive(Debug)]
pub struct EmailClient {
    pub sent: Vec<EmailMessage>,
    pub transport_up: bool,
}

impl View for EmailClient {
    type V = Seq<EmailMessageModel>;

    open spec fn view(&self) -> Seq<EmailMessageModel> {
        self.sent@.map_values(|m: EmailMessage| m@)
    }
}

impl EmailClient {
    /// A client with no deliveries yet and a working transport.
    pub fn new() -> (r: EmailClient)
        ensures
            r@ == Seq::<EmailMessageModel>::empty(),
            r.transport_up,
    {
        let client = EmailClient { sent: Vec::new(), transport_up: true };
        proof {
            assert(client@ =~= Seq::<EmailMessageModel>::empty());
        }
        client
    }

    /// A client whose transport refuses every send.
    pub fn new_with_failing_transport() -> (r: EmailClient)
        ensures
            r@ == Seq::<EmailMessageModel>::empty(),
            !r.transport_up,
    {
        let client = EmailClient { sent: Vec::new(), transport_up: false };
        proof {
            assert(client@ =~= Seq::<EmailMessageModel>::empty());
        }
        client
    }

    /// Hands one message to the transport: recorded and acknowledged when the
    /// transport is up, refused without a trace otherwise.
    pub fn send_email(
        &mut self,
        recipient: &str,
        subject: &str,
        plain_body: &str,
        html_body: &str,
    ) -> (r: Result<(), EmailError>)
        ensures
            final(self).transport_up == old(self).transport_up,
            r is Ok <==> old(self).transport_up,
            old(self).transport_up ==> final(self)@ == old(self)@.push(
                EmailMessageModel {
                    recipient: recipient@,
                    subject: subject@,
                    plain_body: plain_body@,
                    html_body: html_body@,
                },
            ),
            !old(self).transport_up ==> final(self)@ == old(self)@ && final(self).sent@ == old(
                self,
            ).sent@,
    {
        if self.transport_up {
            let message = EmailMessage {
                recipient: recipient.to_owned(),
                subject: subject.to_owned(),
                plain_body: plain_body.to_owned(),
                html_body: html_body.to_owned(),
            };
            self.sent.push(message);
            proof {
                assert(self@ =~= old(self)@.push(
                    EmailMessageModel {
                        recipient: recipient@,
                        subject: subject@,
                        plain_body: plain_body@,
                        html_body: html_body@,
                    },
                ));
            }
            Ok(())
        } else {
            Err(EmailError)
        }
    }
}

} // verus!
