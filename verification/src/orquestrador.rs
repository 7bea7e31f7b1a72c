//! O orquestrador: as regras de quem fala com quem e de quando um nó começa
//! um turno.
//!
//! Regra que governa tudo: **um turno por vez por nó**. Quem chega durante um
//! turno entra na fila do nó, em ordem de chegada, em vez de levar recusa.
//! E um nó que pede a outro fica esperando por ele: é sobre o mapa de quem
//! espera quem que roda a detecção de espera cruzada.
//!
//! Quem grava no banco, avisa a interface e roda os agentes é a borda; as
//! decisões moram aqui.

use crate::cli::EventoAgente;
use crate::erro::{invalido_de, Erro};
use crate::modelo::{EstadoSessao, PapelMensagem, TipoMensagem, Trace, MAX_SALTOS};
use crate::tabela::Tabela;
use crate::texto::{dono, anexar, anexar_chars, aparado, aparar, chars_de, em_branco, juntar, juntar_chars, string_de, escrever_decimal, decimal};
use vstd::prelude::*;

verus! {

broadcast use vstd::string::group_string_axioms;

// ------------------------------------------------------------------ esperas

/// Seguindo a corrente de quem espera quem a partir de `atual`, por no
/// máximo `n` passos, chega-se a `de`? Corrente que não acaba em `n` passos
/// conta como chegada: recusar é o desfecho seguro.
pub open spec fn alcanca(m: Map<Seq<char>, Seq<char>>, de: Seq<char>, atual: Seq<char>, n: nat) -> bool
    decreases n,
{
    if n == 0 {
        true
    } else if !m.contains_key(atual) {
        false
    } else if m[atual] == de {
        true
    } else {
        alcanca(m, de, m[atual], (n - 1) as nat)
    }
}

/// Mandar de `de` para `destino` fecharia uma espera circular: a corrente
/// que parte do destinatário volta a quem manda.
pub open spec fn fecharia_ciclo_spec(m: Map<Seq<char>, Seq<char>>, de: Seq<char>, destino: Seq<char>) -> bool {
    alcanca(m, de, destino, m.dom().len() + 1)
}

/// Quem está parado esperando quem: `esperas[a] = b` quer dizer que `a` está
/// em `aguardando_no` por causa de `b`.
pub struct Esperas {
    quem: Tabela<String>,
}

impl Esperas {
    /// O mapa de quem espera quem.
    pub closed spec fn mapa(&self) -> Map<Seq<char>, Seq<char>> {
        self.quem.mapa().map_values(|s: String| s@)
    }

    pub fn nova() -> (r: Esperas)
        ensures
            r.mapa() == Map::<Seq<char>, Seq<char>>::empty(),
    {
        let r = Esperas { quem: Tabela::nova() };
        assert(r.mapa() =~= Map::<Seq<char>, Seq<char>>::empty());
        r
    }

    /// `de` passa a esperar `destino`.
    pub fn bloquear(&mut self, de: &str, destino: &str)
        ensures
            final(self).mapa() == old(self).mapa().insert(de@, destino@),
    {
        self.quem.inserir(de, destino.to_string());
        assert(self.mapa() =~= old(self).mapa().insert(de@, destino@));
    }

    /// `de` parou de esperar.
    pub fn soltar(&mut self, de: &str)
        ensures
            final(self).mapa() == old(self).mapa().remove(de@),
    {
        let _ = self.quem.remover(de);
        assert(self.mapa() =~= old(self).mapa().remove(de@));
    }

    /// Quem `de` está esperando, se está.
    pub fn esperado_por(&self, de: &str) -> (r: Option<String>)
        ensures
            r is Some <==> self.mapa().contains_key(de@),
            r matches Some(x) ==> x@ == self.mapa()[de@],
    {
        match self.quem.obter(de) {
            Some(x) => Some(x.clone()),
            None => None,
        }
    }

    /// Mandar de `de` para `destino` fecharia uma espera circular?
    ///
    /// Segue a corrente de quem espera quem a partir do destinatário. Se ela
    /// chega de volta a quem está mandando, os dois (ou os cinco) ficariam
    /// parados um pelo outro até o prazo estourar. A corrente não pode ser
    /// maior que o número de nós esperando; passar disso é mapa inconsistente,
    /// e aí a resposta é sim.
    pub fn fecharia_ciclo(&self, de: &str, destino: &str) -> (r: bool)
        ensures
            r == fecharia_ciclo_spec(self.mapa(), de@, destino@),
    {
        let ghost m = self.mapa();
        let n = self.quem.quantos();
        assert(m.dom() =~= self.quem.mapa().dom());
        let mut atual: String = destino.to_string();
        let mut restam: usize = n;
        loop
            invariant
                m == self.mapa(),
                restam <= n,
                n == m.dom().len(),
                fecharia_ciclo_spec(m, de@, destino@) == alcanca(m, de@, atual@, (restam + 1) as nat),
            decreases restam,
        {
            match self.quem.obter(atual.as_str()) {
                Some(proximo) => {
                    if crate::texto::iguais(proximo.as_str(), de) {
                        return true;
                    }
                    atual = proximo.clone();
                },
                None => {
                    return false;
                },
            }
            if restam == 0 {
                proof {
                    reveal_with_fuel(alcanca, 2);
                }
                return true;
            }
            restam = restam - 1;
        }
    }
}

/// Espera cruzada: quem recebe está parado esperando justamente quem manda.
pub proof fn lei_espera_cruzada(m: Map<Seq<char>, Seq<char>>, de: Seq<char>, destino: Seq<char>)
    requires
        m.contains_key(destino),
        m[destino] == de,
    ensures
        fecharia_ciclo_spec(m, de, destino),
{
}

/// Quem não está esperando ninguém nunca fecha ciclo ao receber.
pub proof fn lei_destino_livre(m: Map<Seq<char>, Seq<char>>, de: Seq<char>, destino: Seq<char>)
    requires
        !m.contains_key(destino),
    ensures
        !fecharia_ciclo_spec(m, de, destino),
{
}

/// A corrente de três: `c` espera `b`, `b` espera `a`; `a` perguntar a `c`
/// travaria os três.
pub proof fn lei_corrente_de_tres(m: Map<Seq<char>, Seq<char>>, a: Seq<char>, b: Seq<char>, c: Seq<char>)
    requires
        m.contains_key(c),
        m[c] == b,
        m.contains_key(b),
        m[b] == a,
        m.dom().finite(),
    ensures
        fecharia_ciclo_spec(m, a, c),
{
    if b != a {
        assert(m.dom().contains(c));
        assert(m.dom().len() >= 1) by {
            vstd::set_lib::lemma_set_empty_equivalency_len(m.dom());
        }
        reveal_with_fuel(alcanca, 2);
    }
}

// ------------------------------------------------------------------- filas

/// As mensagens esperando a vez de cada sessão.
pub struct Filas<T> {
    por_sessao: Tabela<Vec<T>>,
}

impl<T> Filas<T> {
    /// A fila de uma sessão, da mais antiga para a mais nova.
    pub closed spec fn fila(&self, sessao: Seq<char>) -> Seq<T> {
        if self.por_sessao.mapa().contains_key(sessao) {
            self.por_sessao.mapa()[sessao]@
        } else {
            Seq::empty()
        }
    }

    pub fn nova() -> (r: Filas<T>)
        ensures
            forall|s: Seq<char>| #[trigger] r.fila(s) == Seq::<T>::empty(),
    {
        Filas { por_sessao: Tabela::nova() }
    }

    /// Põe no fim da fila da sessão.
    pub fn enfileirar(&mut self, sessao: &str, item: T)
        ensures
            final(self).fila(sessao@) == old(self).fila(sessao@).push(item),
            forall|s: Seq<char>| s != sessao@ ==> #[trigger] final(self).fila(s) == old(self).fila(s),
    {
        let mut fila = match self.por_sessao.remover(sessao) {
            Some(f) => f,
            None => Vec::new(),
        };
        fila.push(item);
        self.por_sessao.inserir(sessao, fila);
    }

    /// Tira o primeiro da fila da sessão, se há algum.
    pub fn puxar(&mut self, sessao: &str) -> (r: Option<T>)
        ensures
            old(self).fila(sessao@).len() == 0 ==> r is None
                && final(self).fila(sessao@) == old(self).fila(sessao@),
            old(self).fila(sessao@).len() > 0 ==> r == Some(old(self).fila(sessao@)[0])
                && final(self).fila(sessao@) == old(self).fila(sessao@).drop_first(),
            forall|s: Seq<char>| s != sessao@ ==> #[trigger] final(self).fila(s) == old(self).fila(s),
    {
        match self.por_sessao.remover(sessao) {
            None => {
                assert(self.fila(sessao@) =~= old(self).fila(sessao@));
                None
            },
            Some(mut fila) => {
                if fila.len() == 0 {
                    assert(self.fila(sessao@) =~= old(self).fila(sessao@));
                    return None;
                }
                let primeiro = fila.remove(0);
                if fila.len() > 0 {
                    self.por_sessao.inserir(sessao, fila);
                }
                proof {
                    assert(old(self).fila(sessao@).drop_first() =~= self.fila(sessao@));
                }
                Some(primeiro)
            },
        }
    }

    /// Joga fora o que esperava a vez da sessão.
    pub fn descartar(&mut self, sessao: &str)
        ensures
            final(self).fila(sessao@).len() == 0,
            forall|s: Seq<char>| s != sessao@ ==> #[trigger] final(self).fila(s) == old(self).fila(s),
    {
        let _ = self.por_sessao.remover(sessao);
    }
}

/// Quem chega primeiro é atendido primeiro: numa fila vazia, o que entrou
/// antes sai antes.
pub proof fn lei_ordem_de_chegada<T>(antes: Seq<T>, x: T)
    ensures
        antes.push(x).drop_first() == (if antes.len() == 0 {
            Seq::<T>::empty()
        } else {
            antes.drop_first().push(x)
        }),
        antes.push(x)[0] == (if antes.len() == 0 {
            x
        } else {
            antes[0]
        }),
{
    if antes.len() == 0 {
        assert(antes.push(x).drop_first() =~= Seq::<T>::empty());
    } else {
        assert(antes.push(x).drop_first() =~= antes.drop_first().push(x));
    }
}

// ------------------------------------------------------------------ entrada

/// O que o usuário mandou a um nó, aparado. Mensagem em branco é recusada.
pub fn mensagem_do_usuario(texto: &str) -> (r: Result<String, Erro>)
    ensures
        aparado(texto@).len() == 0 ==> (r matches Err(Erro::Invalido(m)) && m@
            == "não dá para mandar mensagem vazia"@),
        aparado(texto@).len() != 0 ==> (r matches Ok(t) && t@ == aparado(texto@)),
{
    if em_branco(texto) {
        return Err(Erro::invalido("não dá para mandar mensagem vazia"));
    }
    Ok(aparar(texto))
}

// ------------------------------------------------------------------ entrega

/// A frase para o modelo quando a cadeia passou do teto de saltos.
pub open spec fn frase_saltos() -> Seq<char> {
    "esta cadeia já deu "@ + decimal(MAX_SALTOS as nat)
        + " saltos entre nós e foi encerrada. Responda com o que você já tem."@
}

/// O motivo que o usuário lê quando a cadeia é encerrada pelos saltos.
pub open spec fn motivo_saltos() -> Seq<char> {
    "a conversa entre nós passou de "@ + decimal(MAX_SALTOS as nat) + " saltos"@
}

/// A frase para o modelo quando a cadeia gastou o orçamento dela.
pub open spec fn frase_orcamento() -> Seq<char> {
    "esta cadeia já gastou o orçamento dela e foi encerrada. Responda com o que você já tem."@
}

/// O motivo de encerrar a cadeia pelos saltos.
pub fn motivo_por_saltos() -> (r: String)
    ensures
        r@ == motivo_saltos(),
{
    let mut v: Vec<char> = Vec::new();
    anexar(&mut v, "a conversa entre nós passou de ");
    let n = escrever_decimal(MAX_SALTOS as u64);
    anexar_chars(&mut v, &n);
    anexar(&mut v, " saltos");
    string_de(&v)
}

/// O próximo passo de uma cadeia, ou a recusa quando ela já andou demais.
///
/// O limite é do host, não do agente: um agente convencido de que precisa de
/// mais uma rodada sempre acha um motivo.
pub fn proximo_salto(trace: &crate::modelo::Trace) -> (r: Result<crate::modelo::Trace, Erro>)
    ensures
        trace.saltos < MAX_SALTOS ==> (r matches Ok(t) && t.id@ == trace.id@ && t.saltos
            == trace.saltos + 1),
        trace.saltos >= MAX_SALTOS ==> (r matches Err(Erro::Invalido(m)) && m@ == frase_saltos()),
{
    match trace.saltar() {
        Some(t) => Ok(t),
        None => {
            let mut v: Vec<char> = Vec::new();
            anexar(&mut v, "esta cadeia já deu ");
            let n = escrever_decimal(MAX_SALTOS as u64);
            anexar_chars(&mut v, &n);
            anexar(&mut v, " saltos entre nós e foi encerrada. Responda com o que você já tem.");
            Err(invalido_de(&v))
        },
    }
}

/// A recusa de uma cadeia que já gastou o orçamento dela.
pub fn recusa_por_orcamento() -> (r: Erro)
    ensures
        r matches Erro::Invalido(m) && m@ == frase_orcamento(),
{
    Erro::invalido(
        "esta cadeia já gastou o orçamento dela e foi encerrada. Responda com o que você já tem.",
    )
}

/// A frase de espera cruzada, com o nome do nó que espera.
pub open spec fn frase_espera_cruzada(nome: Seq<char>) -> Seq<char> {
    "o nó \""@ + nome
        + "\" está parado esperando a SUA resposta — perguntar de volta agora trava os dois. Responda com o que você já tem."@
}

/// Pode entregar de uma sessão a outra?
///
/// Um nó não fala consigo mesmo. E um pedido que espera resposta não vai a
/// quem está parado esperando quem manda (`fecharia` é a resposta de
/// [`Esperas::fecharia_ciclo`]): os dois ficariam parados. Um aviso não
/// espera, e por isso passa.
pub fn checar_destino(
    de_sessao: &str,
    destino_sessao: &str,
    tipo: TipoMensagem,
    fecharia: bool,
    nome_destino: &str,
) -> (r: Result<(), Erro>)
    ensures
        de_sessao@ == destino_sessao@ ==> (r matches Err(Erro::Invalido(m)) && m@
            == "um nó não fala consigo mesmo"@),
        de_sessao@ != destino_sessao@ && tipo == TipoMensagem::Pedido && fecharia ==> (r matches Err(
            Erro::Invalido(m),
        ) && m@ == frase_espera_cruzada(nome_destino@)),
        de_sessao@ != destino_sessao@ && !(tipo == TipoMensagem::Pedido && fecharia) ==> r is Ok,
{
    if crate::texto::iguais(de_sessao, destino_sessao) {
        return Err(Erro::invalido("um nó não fala consigo mesmo"));
    }
    if tipo == TipoMensagem::Pedido && fecharia {
        let mut v: Vec<char> = Vec::new();
        anexar(&mut v, "o nó \"");
        anexar(&mut v, nome_destino);
        anexar(
            &mut v,
            "\" está parado esperando a SUA resposta — perguntar de volta agora trava os dois. Responda com o que você já tem.",
        );
        return Err(invalido_de(&v));
    }
    Ok(())
}

/// O aviso a quem esperava por um turno que foi cancelado, e a quem esperava
/// pelo nó que cancelou.
pub fn recusa_por_interrupcao() -> (r: Erro)
    ensures
        r matches Erro::Invalido(m) && m@ == "o turno foi interrompido"@,
{
    Erro::invalido("o turno foi interrompido")
}

/// A linha que a conversa ganha quando o usuário para um turno em andamento.
pub fn linha_de_interrupcao() -> (r: String)
    ensures
        r@ == "Turno interrompido por você."@,
{
    dono("Turno interrompido por você.")
}

/// O adaptador parou de mandar eventos sem tocar o sino: o turno acaba como
/// um erro, aplicado como os outros, com esta explicação na conversa e para
/// quem esperava.
pub fn evento_de_parada() -> (r: EventoAgente)
    ensures
        r matches EventoAgente::Erro { mensagem, recuperavel } && mensagem@
            == "O agente parou de responder no meio do turno."@ && recuperavel,
{
    EventoAgente::Erro { mensagem: dono("O agente parou de responder no meio do turno."), recuperavel: true }
}

/// A recusa de quem esperou uma resposta até o prazo: os minutos inteiros do
/// prazo.
pub fn recusa_por_prazo(prazo_ms: u64) -> (r: Erro)
    ensures
        r matches Erro::Invalido(m) && m@ == "o nó não respondeu em "@ + decimal(
            (prazo_ms / 60_000) as nat,
        ) + " minutos"@,
{
    let mut v: Vec<char> = Vec::new();
    anexar(&mut v, "o nó não respondeu em ");
    let n = escrever_decimal(prazo_ms / 60_000);
    anexar_chars(&mut v, &n);
    anexar(&mut v, " minutos");
    invalido_de(&v)
}

// ------------------------------------------------------------------ textos

/// A pergunta ao humano, com as opções quando há.
pub open spec fn pergunta_spec(pergunta: Seq<char>, opcoes: Seq<Seq<char>>) -> Seq<char> {
    if opcoes.len() == 0 {
        pergunta
    } else {
        pergunta + "\n\n("@ + juntar(opcoes, " · "@) + ")"@
    }
}

/// O texto que a conversa mostra quando um agente pergunta ao humano.
pub fn texto_da_pergunta(pergunta: &str, opcoes: &Vec<String>) -> (r: String)
    ensures
        r@ == pergunta_spec(pergunta@, opcoes@.map_values(|s: String| s@)),
{
    if opcoes.len() == 0 {
        return pergunta.to_string();
    }
    let mut partes: Vec<Vec<char>> = Vec::new();
    let mut i: usize = 0;
    while i < opcoes.len()
        invariant
            i <= opcoes@.len(),
            partes@.map_values(|p: Vec<char>| p@) == opcoes@.map_values(|s: String| s@).take(i as int),
        decreases opcoes@.len() - i,
    {
        let ghost antes = partes@;
        partes.push(chars_de(opcoes[i].as_str()));
        proof {
            assert(partes@.map_values(|p: Vec<char>| p@) == antes.map_values(|p: Vec<char>| p@).push(
                opcoes@[i as int]@,
            ));
            assert(opcoes@.map_values(|s: String| s@).take(i + 1) == opcoes@.map_values(
                |s: String| s@,
            ).take(i as int).push(opcoes@[i as int]@));
        }
        i = i + 1;
    }
    proof {
        assert(opcoes@.map_values(|s: String| s@).take(opcoes@.len() as int) == opcoes@.map_values(
            |s: String| s@,
        ));
    }
    let mut v = chars_de(pergunta);
    anexar(&mut v, "\n\n(");
    let lista = juntar_chars(&partes, " · ");
    anexar_chars(&mut v, &lista);
    anexar(&mut v, ")");
    string_de(&v)
}

/// A linha que a conversa ganha quando o agente diz que terminou.
pub fn texto_de_entrega(resumo: &str) -> (r: String)
    ensures
        r@ == "Entregue: "@ + resumo@,
{
    let mut v: Vec<char> = Vec::new();
    anexar(&mut v, "Entregue: ");
    anexar(&mut v, resumo);
    string_de(&v)
}

/// O texto que fica gravado como resposta do turno: o texto final, e o que
/// veio em pedaços quando o final chegou em branco.
pub open spec fn resposta_spec(texto_final: Seq<char>, acumulado: Seq<char>) -> Seq<char> {
    if aparado(texto_final).len() == 0 {
        acumulado
    } else {
        texto_final
    }
}

pub fn texto_da_resposta(texto_final: &str, acumulado: &str) -> (r: String)
    ensures
        r@ == resposta_spec(texto_final@, acumulado@),
{
    if em_branco(texto_final) {
        acumulado.to_string()
    } else {
        texto_final.to_string()
    }
}

// ------------------------------------------------------------------ turno

/// O estado em que a sessão fica depois de um evento, quando ele muda o
/// estado: o sino deixa ociosa, a pergunta deixa esperando o humano, o erro
/// deixa em erro (à força, venha de onde vier).
pub open spec fn estado_apos_spec(e: EventoAgente) -> Option<EstadoSessao> {
    match e {
        EventoAgente::TurnoConcluido { .. } => Some(EstadoSessao::Ocioso),
        EventoAgente::PrecisaHumano { .. } => Some(EstadoSessao::AguardandoHumano),
        EventoAgente::Erro { .. } => Some(EstadoSessao::Erro),
        _ => None,
    }
}

pub fn estado_apos(e: &EventoAgente) -> (r: Option<EstadoSessao>)
    ensures
        r == estado_apos_spec(*e),
{
    match e {
        EventoAgente::TurnoConcluido { .. } => Some(EstadoSessao::Ocioso),
        EventoAgente::PrecisaHumano { .. } => Some(EstadoSessao::AguardandoHumano),
        EventoAgente::Erro { .. } => Some(EstadoSessao::Erro),
        _ => None,
    }
}

/// Os estados por que passa uma sessão parada para começar um turno: de
/// `erro` ela sai por `ocioso` (mandar mensagem já é reconhecer o erro).
/// `None` quando ela está ocupada, e a mensagem espera na fila.
pub fn caminho_ate_pensar(estado: EstadoSessao) -> (r: Option<Vec<EstadoSessao>>)
    ensures
        r is Some <==> estado.spec_aceita_turno(),
        r matches Some(passos) ==> passos@.len() > 0 && passos@.last() == EstadoSessao::Pensando
            && crate::modelo::transicao_legitima(estado, passos@[0]) && forall|i: int|
            0 <= i < passos@.len() - 1 ==> crate::modelo::transicao_legitima(
                #[trigger] passos@[i],
                passos@[i + 1],
            ),
{
    match estado {
        EstadoSessao::Ocioso => Some(vec![EstadoSessao::Pensando]),
        EstadoSessao::Erro => Some(vec![EstadoSessao::Ocioso, EstadoSessao::Pensando]),
        _ => None,
    }
}

/// Um turno que termina, com sino ou com erro, sempre deixa o nó num estado
/// que aceita turno novo. É o que impede um nó de ficar "pensando" para
/// sempre.
pub proof fn lei_fim_de_turno_libera_o_no(e: EventoAgente)
    requires
        e is TurnoConcluido || e is Erro,
    ensures
        estado_apos_spec(e) matches Some(s) && s.spec_aceita_turno(),
{
}

/// O sino chega a quem está pensando por uma transição legítima; a pergunta
/// ao humano também.
pub proof fn lei_eventos_de_quem_pensa(e: EventoAgente)
    requires
        e is TurnoConcluido || e is PrecisaHumano,
    ensures
        estado_apos_spec(e) matches Some(s) && crate::modelo::transicao_legitima(
            EstadoSessao::Pensando,
            s,
        ),
{
}

// ---------------------------------------------------------------- aprovação

/// "Não perguntar de novo" só vale para o que foi aprovado: guardar um "não"
/// permanente esconderia a ferramenta sem o usuário ser lembrado disso.
pub fn vira_regra(lembrar: bool, decisao: crate::modelo::Decisao) -> (r: bool)
    ensures
        r == (lembrar && decisao == crate::modelo::Decisao::Aprovada),
{
    lembrar && decisao == crate::modelo::Decisao::Aprovada
}

/// Cancelar um nó parado não faz nada: cancelar de novo é no-op. Os outros
/// voltam a ociosos à força (de `aguardando_no` não se vai direto para
/// ocioso na tabela, e passar por erro seria mentir sobre o que houve).
pub fn cancelar_muda_estado(estado: EstadoSessao) -> (r: bool)
    ensures
        r == (estado != EstadoSessao::Ocioso),
{
    estado != EstadoSessao::Ocioso
}

// ------------------------------------------------------------- o maestro

/// Uma mensagem esperando a vez de um nó.
#[derive(Debug)]
pub struct Pendencia {
    pub texto: String,
    pub papel: PapelMensagem,
    /// O nó que mandou, quando foi outro nó.
    pub origem_node: Option<String>,
    /// A cadeia em que a mensagem viaja.
    pub trace: Trace,
    /// A sessão que espera o fim deste turno pela resposta: um pedido de outro
    /// nó. `None` quando ninguém espera (o usuário lê a resposta na tela).
    pub quem_espera: Option<String>,
}

/// Uma cópia da cadeia.
fn copia_trace(t: &Trace) -> (r: Trace)
    ensures
        r == *t,
{
    Trace { id: t.id.clone(), saltos: t.saltos }
}

/// A sessão está parada e pode começar um turno.
pub open spec fn livre(estados: Map<Seq<char>, EstadoSessao>, s: Seq<char>) -> bool {
    estados.contains_key(s) && estados[s].spec_aceita_turno()
}

/// Um turno começa na sessão: ela está parada e tem alguém na fila.
pub open spec fn comeca(estados: Map<Seq<char>, EstadoSessao>, fila: Seq<Pendencia>, s: Seq<char>) -> bool {
    livre(estados, s) && fila.len() > 0
}

/// O turno que começa: o mais antigo da fila, se a sessão está parada;
/// nenhum, se está ocupada ou não há ninguém esperando.
pub open spec fn puxado(estados: Map<Seq<char>, EstadoSessao>, fila: Seq<Pendencia>, s: Seq<char>) -> Option<
    Pendencia,
> {
    if comeca(estados, fila, s) {
        Some(fila[0])
    } else {
        None
    }
}

/// A fila depois de puxar: sem o primeiro, se ele começou.
pub open spec fn fila_puxada(estados: Map<Seq<char>, EstadoSessao>, fila: Seq<Pendencia>, s: Seq<char>) -> Seq<
    Pendencia,
> {
    if comeca(estados, fila, s) {
        fila.drop_first()
    } else {
        fila
    }
}

/// Os estados depois de puxar: quem começa vai a pensar (de `erro`,
/// passando por `ocioso`).
pub open spec fn estados_puxados(
    estados: Map<Seq<char>, EstadoSessao>,
    fila: Seq<Pendencia>,
    s: Seq<char>,
) -> Map<Seq<char>, EstadoSessao> {
    if comeca(estados, fila, s) {
        estados.insert(s, EstadoSessao::Pensando)
    } else {
        estados
    }
}

/// As cadeias depois de puxar: quem começa passa a estar na cadeia do que
/// começou.
pub open spec fn traces_puxados(
    estados: Map<Seq<char>, EstadoSessao>,
    fila: Seq<Pendencia>,
    traces: Map<Seq<char>, Trace>,
    s: Seq<char>,
) -> Map<Seq<char>, Trace> {
    if comeca(estados, fila, s) {
        traces.insert(s, fila[0].trace)
    } else {
        traces
    }
}

/// Quem espera o fim de cada turno, depois de puxar: se o que começou é um
/// pedido, quem pediu passa a esperar esta sessão.
pub open spec fn aguardam_puxados(
    estados: Map<Seq<char>, EstadoSessao>,
    fila: Seq<Pendencia>,
    aguardam: Map<Seq<char>, Seq<char>>,
    s: Seq<char>,
) -> Map<Seq<char>, Seq<char>> {
    if comeca(estados, fila, s) {
        match fila[0].quem_espera {
            Some(q) => aguardam.insert(s, q@),
            None => aguardam,
        }
    } else {
        aguardam
    }
}

/// O que a borda faz depois de um evento do agente.
#[derive(Debug)]
pub struct Desfecho {
    /// O estado novo da sessão, quando o evento o muda.
    pub estado: Option<EstadoSessao>,
    /// A sessão que esperava a resposta deste turno: recebe agora o texto
    /// final (ou o erro).
    pub responder_a: Option<String>,
    /// O próximo da fila, cujo turno começou agora.
    pub proximo: Option<Pendencia>,
    /// A resposta do agente neste turno, quando o sino tocou: é o que fica
    /// gravado e o que recebe quem esperava.
    pub resposta: Option<String>,
}

/// O texto juntado até aqui no turno de uma sessão.
pub open spec fn acumulado_em(m: Map<Seq<char>, Seq<char>>, s: Seq<char>) -> Seq<char> {
    if m.contains_key(s) {
        m[s]
    } else {
        Seq::empty()
    }
}

/// O evento encerra o turno e a sessão aceita o estado que ele deixa: o erro
/// sempre (à força), o sino só por uma transição legítima.
pub open spec fn fim_aceito(estado: EstadoSessao, e: EventoAgente) -> bool {
    ||| e is Erro
    ||| (e is TurnoConcluido && crate::modelo::transicao_legitima(estado, EstadoSessao::Ocioso))
}

/// O que aconteceu com uma mensagem do usuário.
#[derive(Debug)]
pub enum Envio {
    /// A sessão tinha uma pergunta aberta ao humano: a mensagem é a resposta,
    /// e o turno que estava parado dentro da ferramenta segue.
    Resposta(String),
    /// A mensagem entrou na fila numa cadeia nova; `turno` é o que começou.
    Fila { trace: Trace, turno: Option<Pendencia> },
}

/// A pendência de uma mensagem do usuário: o texto, a cadeia, ninguém
/// esperando a resposta por canal.
pub open spec fn do_usuario(p: Pendencia, texto: Seq<char>, trace: Trace) -> bool {
    &&& p.texto@ == texto
    &&& p.papel == PapelMensagem::Usuario
    &&& p.origem_node is None
    &&& p.trace == trace
    &&& p.quem_espera is None
}

/// O orçamento de uma cadeia de conversa entre nós, em centavos de dólar.
pub const ORCAMENTO_POR_TRACE_CENTAVOS: u64 = 100;

/// Dois dígitos, com zero à esquerda.
pub open spec fn dois_digitos(n: nat) -> Seq<char> {
    if n < 10 {
        "0"@ + decimal(n)
    } else {
        decimal(n)
    }
}

/// O motivo que o usuário lê quando a cadeia é encerrada pelo orçamento.
pub open spec fn motivo_orcamento() -> Seq<char> {
    "a conversa entre nós passou de US$ "@ + decimal((ORCAMENTO_POR_TRACE_CENTAVOS / 100) as nat)
        + "."@ + dois_digitos((ORCAMENTO_POR_TRACE_CENTAVOS % 100) as nat)
}

/// O motivo de encerrar a cadeia pelo orçamento.
pub fn motivo_por_orcamento() -> (r: String)
    ensures
        r@ == motivo_orcamento(),
{
    let mut v: Vec<char> = Vec::new();
    anexar(&mut v, "a conversa entre nós passou de US$ ");
    let inteiros = escrever_decimal(ORCAMENTO_POR_TRACE_CENTAVOS / 100);
    anexar_chars(&mut v, &inteiros);
    anexar(&mut v, ".");
    let centavos = ORCAMENTO_POR_TRACE_CENTAVOS % 100;
    if centavos < 10 {
        anexar(&mut v, "0");
    }
    let c = escrever_decimal(centavos);
    anexar_chars(&mut v, &c);
    string_de(&v)
}

/// O que aconteceu com um recado de um nó para outro.
#[derive(Debug)]
pub enum Entrega {
    /// A cadeia foi encerrada por um limite: a borda avisa o usuário com o
    /// motivo (nunca em silêncio) e devolve a recusa ao agente.
    Encerrada { trace_id: String, motivo: String, recusa: Erro },
    /// O recado não pode ir, e a cadeia segue.
    Recusada(Erro),
    /// O recado entrou na fila do destino, um salto adiante na cadeia;
    /// `turno` é o que começou no destino.
    Entregue { trace: Trace, turno: Option<Pendencia> },
}

/// A pendência de um recado de outro nó.
pub open spec fn de_outro_no(
    p: Pendencia,
    corpo: Seq<char>,
    origem_node: Seq<char>,
    trace: Trace,
    quem_espera: Option<Seq<char>>,
) -> bool {
    &&& p.texto@ == corpo
    &&& p.papel == PapelMensagem::No
    &&& p.origem_node matches Some(o) && o@ == origem_node
    &&& p.trace == trace
    &&& match p.quem_espera {
        Some(q) => quem_espera == Some(q@),
        None => quem_espera is None,
    }
}

/// Quem espera a resposta de um recado: quem manda, se é um pedido.
pub open spec fn espera_de(tipo: TipoMensagem, de: Seq<char>) -> Option<Seq<char>> {
    if tipo == TipoMensagem::Pedido {
        Some(de)
    } else {
        None
    }
}

/// Os saltos da cadeia em que a sessão está; uma cadeia nova ainda não deu
/// nenhum.
pub open spec fn saltos_de(traces: Map<Seq<char>, Trace>, s: Seq<char>) -> int {
    if traces.contains_key(s) {
        traces[s].saltos as int
    } else {
        0
    }
}

/// Um recado passa por todas as regras da ponte.
pub open spec fn entrega_passa(
    traces: Map<Seq<char>, Trace>,
    esperas: Map<Seq<char>, Seq<char>>,
    de: Seq<char>,
    destino: Seq<char>,
    tipo: TipoMensagem,
    orcamento_estourado: bool,
) -> bool {
    &&& saltos_de(traces, de) < MAX_SALTOS
    &&& !orcamento_estourado
    &&& de != destino
    &&& !(tipo == TipoMensagem::Pedido && fecharia_ciclo_spec(esperas, de, destino))
}

/// Quem manda um pedido fica esperando o destino.
pub open spec fn bloqueado(estados: Map<Seq<char>, EstadoSessao>, tipo: TipoMensagem, de: Seq<char>) -> Map<
    Seq<char>,
    EstadoSessao,
> {
    if tipo == TipoMensagem::Pedido {
        estados.insert(de, EstadoSessao::AguardandoNo)
    } else {
        estados
    }
}

/// A sessão depois de abrir: a que existe, ou uma nova ociosa.
pub open spec fn com_sessao(estados: Map<Seq<char>, EstadoSessao>, s: Seq<char>) -> Map<
    Seq<char>,
    EstadoSessao,
> {
    if estados.contains_key(s) {
        estados
    } else {
        estados.insert(s, EstadoSessao::Ocioso)
    }
}

/// O que a borda faz ao cancelar um turno.
#[derive(Debug)]
pub struct Cancelamento {
    /// Quem esperava a resposta deste turno: recebe que o turno foi
    /// interrompido, em vez de ficar pendurado até o prazo.
    pub responder_a: Option<String>,
    /// A sessão que este nó esperava: a espera pendurada no turno dela é
    /// solta com o mesmo aviso.
    pub soltar_de: Option<String>,
    /// A sessão estava em andamento e voltou a ociosa: a conversa registra
    /// que foi o usuário quem parou.
    pub interrompeu: bool,
}

/// Quem espera o fim de cada turno depois de cancelar `s`: ninguém mais
/// espera `s`, nem o turno que `s` esperava.
pub open spec fn aguardam_sem(
    aguardam: Map<Seq<char>, Seq<char>>,
    esperas: Map<Seq<char>, Seq<char>>,
    s: Seq<char>,
) -> Map<Seq<char>, Seq<char>> {
    if esperas.contains_key(s) {
        aguardam.remove(s).remove(esperas[s])
    } else {
        aguardam.remove(s)
    }
}

/// Quem coordena os turnos: o estado de cada sessão, a fila de cada uma, a
/// cadeia em que cada uma está, quem espera quem e quem espera a resposta de
/// quem. Um turno por vez por nó: quem chega durante um turno entra na fila,
/// em ordem de chegada.
///
/// Gravar no banco, avisar a interface, rodar os agentes e segurar os canais
/// de resposta é da borda, que faz o que as respostas daqui mandam.
pub struct Orquestrador {
    estados: Tabela<EstadoSessao>,
    filas: Filas<Pendencia>,
    traces: Tabela<Trace>,
    esperas: Esperas,
    aguardam: Tabela<String>,
    perguntas: Tabela<bool>,
    acumulados: Tabela<String>,
    url_barramento: Option<String>,
}

impl Orquestrador {
    /// O estado de cada sessão conhecida.
    pub closed spec fn estados(&self) -> Map<Seq<char>, EstadoSessao> {
        self.estados.mapa()
    }

    /// A fila de uma sessão, da mais antiga para a mais nova.
    pub closed spec fn fila(&self, s: Seq<char>) -> Seq<Pendencia> {
        self.filas.fila(s)
    }

    /// A cadeia em que cada sessão está no turno atual.
    pub closed spec fn traces(&self) -> Map<Seq<char>, Trace> {
        self.traces.mapa()
    }

    /// Quem está parado esperando quem: `esperas()[a] == b` quando `a` pediu
    /// a `b` e espera a resposta.
    pub closed spec fn esperas(&self) -> Map<Seq<char>, Seq<char>> {
        self.esperas.mapa()
    }

    /// Quem espera o fim do turno de cada sessão: `aguardam()[b] == a` quando
    /// o turno de `b` responde ao pedido de `a`.
    pub closed spec fn aguardam(&self) -> Map<Seq<char>, Seq<char>> {
        self.aguardam.mapa().map_values(|q: String| q@)
    }

    /// As sessões que perguntaram algo ao humano e esperam a resposta.
    pub closed spec fn perguntas(&self) -> Set<Seq<char>> {
        self.perguntas.mapa().dom()
    }

    /// O texto que chegou em pedaços no turno em curso de cada sessão.
    pub closed spec fn acumulados(&self) -> Map<Seq<char>, Seq<char>> {
        self.acumulados.mapa().map_values(|t: String| t@)
    }

    /// Onde o barramento subiu, se subiu.
    pub closed spec fn url_spec(&self) -> Option<Seq<char>> {
        match self.url_barramento {
            Some(u) => Some(u@),
            None => None,
        }
    }

    /// Um orquestrador sem sessão nenhuma e sem barramento.
    pub fn novo() -> (r: Orquestrador)
        ensures
            r.estados() == Map::<Seq<char>, EstadoSessao>::empty(),
            forall|s: Seq<char>| #[trigger] r.fila(s) == Seq::<Pendencia>::empty(),
            r.traces() == Map::<Seq<char>, Trace>::empty(),
            r.esperas() == Map::<Seq<char>, Seq<char>>::empty(),
            r.aguardam() == Map::<Seq<char>, Seq<char>>::empty(),
            r.perguntas() == Set::<Seq<char>>::empty(),
            r.acumulados() == Map::<Seq<char>, Seq<char>>::empty(),
            r.url_spec() is None,
    {
        let r = Orquestrador {
            estados: Tabela::nova(),
            filas: Filas::nova(),
            traces: Tabela::nova(),
            esperas: Esperas::nova(),
            aguardam: Tabela::nova(),
            perguntas: Tabela::nova(),
            acumulados: Tabela::nova(),
            url_barramento: None,
        };
        assert(r.aguardam() =~= Map::<Seq<char>, Seq<char>>::empty());
        assert(r.acumulados() =~= Map::<Seq<char>, Seq<char>>::empty());
        assert(r.perguntas() =~= Set::<Seq<char>>::empty());
        r
    }

    /// Diz onde o barramento subiu. Até isto acontecer, nenhum agente grava
    /// nem fala com outro nó: sem barramento não há quem aprove nem por onde
    /// falar.
    pub fn ligar_barramento(&mut self, url_base: &str)
        ensures
            final(self).url_spec() == Some(url_base@),
            final(self).estados() == old(self).estados(),
            forall|s: Seq<char>| #[trigger] final(self).fila(s) == old(self).fila(s),
            final(self).traces() == old(self).traces(),
            final(self).esperas() == old(self).esperas(),
            final(self).aguardam() == old(self).aguardam(),
            final(self).perguntas() == old(self).perguntas(),
            final(self).acumulados() == old(self).acumulados(),
    {
        self.url_barramento = Some(url_base.to_string());
    }

    /// Onde o barramento subiu, se subiu.
    pub fn url_barramento(&self) -> (r: Option<String>)
        ensures
            match r {
                Some(u) => self.url_spec() == Some(u@),
                None => self.url_spec() is None,
            },
    {
        match &self.url_barramento {
            Some(u) => Some(u.clone()),
            None => None,
        }
    }

    /// O estado de uma sessão, se ela é conhecida.
    pub fn estado(&self, s: &str) -> (r: Option<EstadoSessao>)
        ensures
            r is Some <==> self.estados().contains_key(s@),
            r matches Some(e) ==> e == self.estados()[s@],
    {
        match self.estados.obter(s) {
            Some(e) => Some(*e),
            None => None,
        }
    }

    /// Abre a sessão de um nó, ou deixa a que já existe: reabrir não começa
    /// conversa nova. Uma sessão nasce ociosa.
    pub fn abrir_sessao(&mut self, s: &str) -> (r: EstadoSessao)
        ensures
            old(self).estados().contains_key(s@) ==> final(self).estados() == old(self).estados()
                && r == old(self).estados()[s@],
            !old(self).estados().contains_key(s@) ==> final(self).estados() == old(self).estados().insert(s@, EstadoSessao::Ocioso) && r == EstadoSessao::Ocioso,
            forall|x: Seq<char>| #[trigger] final(self).fila(x) == old(self).fila(x),
            final(self).traces() == old(self).traces(),
            final(self).esperas() == old(self).esperas(),
            final(self).aguardam() == old(self).aguardam(),
            final(self).perguntas() == old(self).perguntas(),
            final(self).url_spec() == old(self).url_spec(),
            final(self).acumulados() == old(self).acumulados(),
    {
        match self.estados.obter(s) {
            Some(e) => *e,
            None => {
                self.estados.inserir(s, EstadoSessao::Ocioso);
                EstadoSessao::Ocioso
            },
        }
    }

    /// Começa o turno do primeiro da fila, se a sessão está parada: ele sai
    /// da fila e é devolvido, a sessão vai a pensar, fica na cadeia dele e,
    /// se é um pedido, quem pediu passa a esperar o fim deste turno.
    fn puxar_da_fila(&mut self, s: &str) -> (r: Option<Pendencia>)
        ensures
            r == puxado(old(self).estados(), old(self).fila(s@), s@),
            final(self).fila(s@) == fila_puxada(old(self).estados(), old(self).fila(s@), s@),
            final(self).estados() == estados_puxados(old(self).estados(), old(self).fila(s@), s@),
            final(self).traces() == traces_puxados(
                old(self).estados(),
                old(self).fila(s@),
                old(self).traces(),
                s@,
            ),
            final(self).aguardam() == aguardam_puxados(
                old(self).estados(),
                old(self).fila(s@),
                old(self).aguardam(),
                s@,
            ),
            forall|x: Seq<char>| x != s@ ==> #[trigger] final(self).fila(x) == old(self).fila(x),
            final(self).esperas() == old(self).esperas(),
            final(self).perguntas() == old(self).perguntas(),
            final(self).acumulados() == old(self).acumulados(),
            final(self).url_spec() == old(self).url_spec(),
    {
        let pode = match self.estados.obter(s) {
            Some(e) => e.aceita_turno(),
            None => false,
        };
        if !pode {
            return None;
        }
        match self.filas.puxar(s) {
            None => None,
            Some(prox) => {
                self.estados.inserir(s, EstadoSessao::Pensando);
                self.traces.inserir(s, copia_trace(&prox.trace));
                let ghost antes = self.aguardam();
                match &prox.quem_espera {
                    Some(q) => {
                        self.aguardam.inserir(s, q.clone());
                        assert(self.aguardam() =~= antes.insert(s@, q@));
                    },
                    None => {},
                }
                Some(prox)
            },
        }
    }

    /// A mensagem entra no fim da fila da sessão e, se o nó está parado, o
    /// turno do primeiro da fila começa (ver [`Orquestrador::puxar_da_fila`]).
    /// Nó ocupado, ou desconhecido, não começa nada: quem terminar o turno
    /// atual puxa o próximo.
    pub fn enfileirar(&mut self, s: &str, p: Pendencia) -> (r: Option<Pendencia>)
        ensures
            r == puxado(old(self).estados(), old(self).fila(s@).push(p), s@),
            final(self).fila(s@) == fila_puxada(old(self).estados(), old(self).fila(s@).push(p), s@),
            final(self).estados() == estados_puxados(
                old(self).estados(),
                old(self).fila(s@).push(p),
                s@,
            ),
            final(self).traces() == traces_puxados(
                old(self).estados(),
                old(self).fila(s@).push(p),
                old(self).traces(),
                s@,
            ),
            final(self).aguardam() == aguardam_puxados(
                old(self).estados(),
                old(self).fila(s@).push(p),
                old(self).aguardam(),
                s@,
            ),
            forall|x: Seq<char>| x != s@ ==> #[trigger] final(self).fila(x) == old(self).fila(x),
            final(self).esperas() == old(self).esperas(),
            final(self).perguntas() == old(self).perguntas(),
            final(self).url_spec() == old(self).url_spec(),
            final(self).acumulados() == old(self).acumulados(),
    {
        self.filas.enfileirar(s, p);
        self.puxar_da_fila(s)
    }

    /// Aplica um evento do agente à sessão.
    ///
    /// O sino e o erro encerram o turno: a sessão fica ociosa (ou em erro, à
    /// força), quem esperava a resposta deste turno recebe, a cadeia acaba e
    /// o próximo da fila começa — sem isto, um recado enfileirado durante o
    /// turno esperaria até alguém falar de novo com o nó. Um sino que chega
    /// num estado de onde não se vai a ocioso não muda o estado nem responde
    /// a ninguém, mas o turno acaba do mesmo jeito. A pergunta ao humano deixa
    /// a sessão esperando por ele, se a transição é legítima. O resto não
    /// muda estado. Sessão desconhecida não muda nada. Um adaptador que some
    /// no meio do turno é aplicado como um erro.
    ///
    /// O texto que chega em pedaços vai se juntando. No sino, a resposta do
    /// agente é o texto final e, se ele veio em branco, o que se juntou no
    /// turno: um adaptador que só manda pedaços não perde a resposta. É ela
    /// que fica gravada e que recebe quem esperava. O fim do turno zera o que
    /// se juntou.
    pub fn aplicar(&mut self, s: &str, e: &EventoAgente) -> (r: Desfecho)
        ensures
            !old(self).estados().contains_key(s@) ==> r.estado is None && r.responder_a is None
                && r.proximo is None && r.resposta is None && *final(self) == *old(self),
            old(self).estados().contains_key(s@) && (*e is TurnoConcluido || *e is Erro) ==> ({
                let e0 = old(self).estados()[s@];
                let aceito = fim_aceito(e0, *e);
                let novo = estado_apos_spec(*e)->0;
                let est1 = if aceito {
                    old(self).estados().insert(s@, novo)
                } else {
                    old(self).estados()
                };
                let ag1 = if aceito {
                    old(self).aguardam().remove(s@)
                } else {
                    old(self).aguardam()
                };
                let tr1 = old(self).traces().remove(s@);
                let f = old(self).fila(s@);
                &&& r.estado == (if aceito {
                    Some(novo)
                } else {
                    None
                })
                &&& (r.responder_a is Some <==> aceito && old(self).aguardam().contains_key(s@))
                &&& (r.responder_a matches Some(q) ==> q@ == old(self).aguardam()[s@])
                &&& r.proximo == puxado(est1, f, s@)
                &&& final(self).fila(s@) == fila_puxada(est1, f, s@)
                &&& final(self).estados() == estados_puxados(est1, f, s@)
                &&& final(self).traces() == traces_puxados(est1, f, tr1, s@)
                &&& final(self).aguardam() == aguardam_puxados(est1, f, ag1, s@)
                &&& final(self).acumulados() == old(self).acumulados().remove(s@)
            }),
            old(self).estados().contains_key(s@) ==> match *e {
                EventoAgente::TurnoConcluido { texto_final, .. } => r.resposta matches Some(t)
                    && t@ == resposta_spec(texto_final@, acumulado_em(old(self).acumulados(), s@)),
                _ => r.resposta is None,
            },
            old(self).estados().contains_key(s@) && *e is PrecisaHumano ==> ({
                let aceito = crate::modelo::transicao_legitima(
                    old(self).estados()[s@],
                    EstadoSessao::AguardandoHumano,
                );
                &&& r.estado == (if aceito {
                    Some(EstadoSessao::AguardandoHumano)
                } else {
                    None
                })
                &&& final(self).estados() == (if aceito {
                    old(self).estados().insert(s@, EstadoSessao::AguardandoHumano)
                } else {
                    old(self).estados()
                })
                &&& r.responder_a is None && r.proximo is None
                &&& final(self).fila(s@) == old(self).fila(s@)
                &&& final(self).traces() == old(self).traces()
                &&& final(self).aguardam() == old(self).aguardam()
                &&& final(self).acumulados() == old(self).acumulados()
            }),
            old(self).estados().contains_key(s@) ==> match *e {
                EventoAgente::TextoParcial { delta } => r.estado is None && r.responder_a is None
                    && r.proximo is None && final(self).acumulados() == old(self).acumulados().insert(
                    s@,
                    acumulado_em(old(self).acumulados(), s@) + delta@,
                ) && final(self).estados() == old(self).estados() && final(self).traces()
                    == old(self).traces() && final(self).aguardam() == old(self).aguardam()
                    && final(self).fila(s@) == old(self).fila(s@),
                _ => true,
            },
            !(*e is TurnoConcluido || *e is Erro || *e is PrecisaHumano || *e is TextoParcial)
                ==> r.estado is None && r.responder_a is None && r.proximo is None && r.resposta is None
                && *final(self) == *old(self),
            forall|x: Seq<char>| x != s@ ==> #[trigger] final(self).fila(x) == old(self).fila(x),
            final(self).esperas() == old(self).esperas(),
            final(self).perguntas() == old(self).perguntas(),
            final(self).url_spec() == old(self).url_spec(),
    {
        let e0 = match self.estados.obter(s) {
            Some(x) => *x,
            None => return Desfecho { estado: None, responder_a: None, proximo: None, resposta: None },
        };
        match e {
            EventoAgente::TurnoConcluido { .. } | EventoAgente::Erro { .. } => {
                let ghost c0 = self.acumulados();
                let resposta = match e {
                    EventoAgente::TurnoConcluido { texto_final, .. } => {
                        let t = match self.acumulados.obter(s) {
                            Some(a) => texto_da_resposta(texto_final.as_str(), a.as_str()),
                            None => texto_da_resposta(texto_final.as_str(), ""),
                        };
                        proof {
                            reveal_strlit("");
                        }
                        Some(t)
                    },
                    _ => None,
                };
                let _ = self.acumulados.remover(s);
                assert(self.acumulados() =~= c0.remove(s@));
                let novo = match e {
                    EventoAgente::Erro { .. } => EstadoSessao::Erro,
                    _ => EstadoSessao::Ocioso,
                };
                let aceito = match e {
                    EventoAgente::Erro { .. } => true,
                    _ => e0.pode_ir_para(EstadoSessao::Ocioso),
                };
                let mut responder_a: Option<String> = None;
                if aceito {
                    self.estados.inserir(s, novo);
                    let ghost antes = self.aguardam();
                    responder_a = self.aguardam.remover(s);
                    assert(self.aguardam() =~= antes.remove(s@));
                }
                let _ = self.traces.remover(s);
                let proximo = self.puxar_da_fila(s);
                Desfecho {
                    estado: if aceito { Some(novo) } else { None },
                    responder_a,
                    proximo,
                    resposta,
                }
            },
            EventoAgente::TextoParcial { delta } => {
                let ghost c0 = self.acumulados();
                let mut v: Vec<char> = match self.acumulados.obter(s) {
                    Some(a) => chars_de(a.as_str()),
                    None => Vec::new(),
                };
                anexar(&mut v, delta.as_str());
                self.acumulados.inserir(s, string_de(&v));
                assert(self.acumulados() =~= c0.insert(s@, acumulado_em(c0, s@) + delta@));
                Desfecho { estado: None, responder_a: None, proximo: None, resposta: None }
            },
            EventoAgente::PrecisaHumano { .. } => {
                if e0.pode_ir_para(EstadoSessao::AguardandoHumano) {
                    self.estados.inserir(s, EstadoSessao::AguardandoHumano);
                    Desfecho {
                        estado: Some(EstadoSessao::AguardandoHumano),
                        responder_a: None,
                        proximo: None,
                        resposta: None,
                    }
                } else {
                    Desfecho { estado: None, responder_a: None, proximo: None, resposta: None }
                }
            },
            _ => Desfecho { estado: None, responder_a: None, proximo: None, resposta: None },
        }
    }

    /// O usuário falou com um nó.
    ///
    /// Mensagem em branco é recusada; sessão desconhecida é `nao_encontrado`
    /// na hora, e não lá dentro da fila. Se o nó perguntou algo e espera, a
    /// mensagem é a resposta — não um turno novo — e a sessão volta a pensar.
    /// Senão a mensagem entra na fila numa cadeia nova (cada coisa que o
    /// usuário pede abre uma cadeia própria, e é sobre ela que o orçamento e
    /// o limite de saltos incidem), e começa se o nó está parado.
    pub fn enviar(&mut self, s: &str, texto: &str) -> (r: Result<Envio, Erro>)
        ensures
            aparado(texto@).len() == 0 ==> (r matches Err(Erro::Invalido(m)) && m@
                == "não dá para mandar mensagem vazia"@) && *final(self) == *old(self),
            aparado(texto@).len() != 0 && !old(self).estados().contains_key(s@) ==> (r matches Err(
                Erro::NaoEncontrado { tipo, id },
            ) && tipo@ == "sessão"@ && id@ == s@) && *final(self) == *old(self),
            aparado(texto@).len() != 0 && old(self).estados().contains_key(s@) && old(self).perguntas().contains(s@) ==> (r matches Ok(Envio::Resposta(t)) && t@ == aparado(
                texto@,
            )) && final(self).perguntas() == old(self).perguntas().remove(s@) && final(self).estados() == old(self).estados().insert(s@, EstadoSessao::Pensando) && (forall|
                x: Seq<char>,
            | #[trigger] final(self).fila(x) == old(self).fila(x)) && final(self).traces() == old(self).traces() && final(self).aguardam() == old(self).aguardam() && final(self).esperas()
                == old(self).esperas(),
            aparado(texto@).len() != 0 && old(self).estados().contains_key(s@) && !old(self).perguntas().contains(s@) ==> (r matches Ok(Envio::Fila { trace, turno }) && trace.saltos
                == 0 && exists|p: Pendencia|
                #[trigger] do_usuario(p, aparado(texto@), trace) && turno == puxado(
                    old(self).estados(),
                    old(self).fila(s@).push(p),
                    s@,
                ) && final(self).fila(s@) == fila_puxada(
                    old(self).estados(),
                    old(self).fila(s@).push(p),
                    s@,
                ) && final(self).estados() == estados_puxados(
                    old(self).estados(),
                    old(self).fila(s@).push(p),
                    s@,
                ) && final(self).traces() == traces_puxados(
                    old(self).estados(),
                    old(self).fila(s@).push(p),
                    old(self).traces(),
                    s@,
                ) && final(self).aguardam() == aguardam_puxados(
                    old(self).estados(),
                    old(self).fila(s@).push(p),
                    old(self).aguardam(),
                    s@,
                )) && (forall|x: Seq<char>|
                x != s@ ==> #[trigger] final(self).fila(x) == old(self).fila(x)) && final(self).perguntas() == old(self).perguntas() && final(self).esperas() == old(self).esperas(),
            final(self).url_spec() == old(self).url_spec(),
            final(self).acumulados() == old(self).acumulados(),
    {
        let limpo = match mensagem_do_usuario(texto) {
            Ok(t) => t,
            Err(e) => return Err(e),
        };
        if self.estados.obter(s).is_none() {
            return Err(Erro::nao_encontrado("sessão", s));
        }
        if self.perguntas.obter(s).is_some() {
            let ghost antes = self.perguntas();
            let _ = self.perguntas.remover(s);
            assert(self.perguntas() =~= antes.remove(s@));
            self.estados.inserir(s, EstadoSessao::Pensando);
            return Ok(Envio::Resposta(limpo));
        }
        let trace = Trace::novo();
        let pendencia = Pendencia {
            texto: limpo,
            papel: PapelMensagem::Usuario,
            origem_node: None,
            trace: copia_trace(&trace),
            quem_espera: None,
        };
        let ghost gp = pendencia;
        let turno = self.enfileirar(s, pendencia);
        assert(do_usuario(gp, aparado(texto@), trace));
        Ok(Envio::Fila { trace, turno })
    }

    /// O agente perguntou algo a quem está na frente da tela: a próxima
    /// mensagem do usuário a este nó é a resposta, e a sessão espera por ela.
    pub fn perguntar_humano(&mut self, s: &str)
        ensures
            final(self).perguntas() == old(self).perguntas().insert(s@),
            old(self).estados().contains_key(s@) ==> final(self).estados() == old(self).estados().insert(s@, EstadoSessao::AguardandoHumano),
            !old(self).estados().contains_key(s@) ==> final(self).estados() == old(self).estados(),
            forall|x: Seq<char>| #[trigger] final(self).fila(x) == old(self).fila(x),
            final(self).traces() == old(self).traces(),
            final(self).esperas() == old(self).esperas(),
            final(self).aguardam() == old(self).aguardam(),
            final(self).url_spec() == old(self).url_spec(),
            final(self).acumulados() == old(self).acumulados(),
    {
        let ghost antes = self.perguntas();
        self.perguntas.inserir(s, true);
        assert(self.perguntas() =~= antes.insert(s@));
        if self.estados.obter(s).is_some() {
            self.estados.inserir(s, EstadoSessao::AguardandoHumano);
        }
    }

    /// Leva a sessão a `para` se a tabela de estados deixa; senão nada muda.
    /// É o que o card de aprovação faz: o nó passa a pedir atenção enquanto
    /// espera o clique, e volta a pensar depois dele. Devolve se mudou.
    pub fn mudar_estado(&mut self, s: &str, para: EstadoSessao) -> (r: bool)
        ensures
            r == (old(self).estados().contains_key(s@) && crate::modelo::transicao_legitima(
                old(self).estados()[s@],
                para,
            )),
            r ==> final(self).estados() == old(self).estados().insert(s@, para),
            !r ==> final(self).estados() == old(self).estados(),
            forall|x: Seq<char>| #[trigger] final(self).fila(x) == old(self).fila(x),
            final(self).traces() == old(self).traces(),
            final(self).esperas() == old(self).esperas(),
            final(self).aguardam() == old(self).aguardam(),
            final(self).perguntas() == old(self).perguntas(),
            final(self).acumulados() == old(self).acumulados(),
            final(self).url_spec() == old(self).url_spec(),
    {
        match self.estados.obter(s) {
            Some(e) => {
                if e.pode_ir_para(para) {
                    self.estados.inserir(s, para);
                    true
                } else {
                    false
                }
            },
            None => false,
        }
    }

    /// Ninguém respondeu a tempo: a pergunta deixa de esperar.
    pub fn esquecer_pergunta(&mut self, s: &str)
        ensures
            final(self).perguntas() == old(self).perguntas().remove(s@),
            final(self).estados() == old(self).estados(),
            forall|x: Seq<char>| #[trigger] final(self).fila(x) == old(self).fila(x),
            final(self).traces() == old(self).traces(),
            final(self).esperas() == old(self).esperas(),
            final(self).aguardam() == old(self).aguardam(),
            final(self).url_spec() == old(self).url_spec(),
            final(self).acumulados() == old(self).acumulados(),
    {
        let ghost antes = self.perguntas();
        let _ = self.perguntas.remover(s);
        assert(self.perguntas() =~= antes.remove(s@));
    }

    /// A cadeia em que a sessão está agora, se está em alguma.
    pub fn trace_de(&self, s: &str) -> (r: Option<Trace>)
        ensures
            r is Some <==> self.traces().contains_key(s@),
            r matches Some(t) ==> t == self.traces()[s@],
    {
        match self.traces.obter(s) {
            Some(t) => Some(copia_trace(t)),
            None => None,
        }
    }

    /// Um nó falando com outro: as regras da ponte.
    ///
    /// O recado viaja na cadeia em que `de` está (ou numa nova) e dá um salto.
    /// Cadeia que já deu os saltos do teto é encerrada; a que já gastou o
    /// orçamento também (`orcamento_estourado` é o gasto da cadeia atual de
    /// `de` já ter passado de [`ORCAMENTO_POR_TRACE_CENTAVOS`]). Depois a
    /// sessão de destino é aberta, se ainda não existia. Um nó não fala
    /// consigo mesmo, e um pedido não vai a quem está parado esperando quem
    /// manda (espera cruzada). Passando, o recado entra na fila do destino e,
    /// se é um pedido, quem manda fica esperando o destino.
    #[verifier::rlimit(40)]
    pub fn entregar(
        &mut self,
        de: &str,
        destino: &str,
        corpo: &str,
        origem_node: &str,
        tipo: TipoMensagem,
        orcamento_estourado: bool,
        nome_destino: &str,
    ) -> (r: Entrega)
        ensures
            saltos_de(old(self).traces(), de@) >= MAX_SALTOS ==> (r matches Entrega::Encerrada {
                trace_id,
                motivo,
                recusa,
            } && (old(self).traces().contains_key(de@) && trace_id@ == old(self).traces()[de@].id@)
                && motivo@ == motivo_saltos() && (recusa matches Erro::Invalido(m) && m@
                == frase_saltos())) && *final(self) == *old(self),
            saltos_de(old(self).traces(), de@) < MAX_SALTOS && orcamento_estourado ==> (r matches Entrega::Encerrada {
                trace_id,
                motivo,
                recusa,
            } && (old(self).traces().contains_key(de@) ==> trace_id@ == old(self).traces()[de@].id@)
                && motivo@ == motivo_orcamento() && (recusa matches Erro::Invalido(m) && m@
                == frase_orcamento())) && *final(self) == *old(self),
            saltos_de(old(self).traces(), de@) < MAX_SALTOS && !orcamento_estourado ==> final(self).url_spec()
                == old(self).url_spec() && final(self).perguntas() == old(self).perguntas(),
            saltos_de(old(self).traces(), de@) < MAX_SALTOS && !orcamento_estourado && de@ == destino@
                ==> (r matches Entrega::Recusada(Erro::Invalido(m)) && m@
                == "um nó não fala consigo mesmo"@) && final(self).estados() == com_sessao(
                old(self).estados(),
                destino@,
            ) && final(self).traces() == old(self).traces() && final(self).esperas() == old(self).esperas()
                && final(self).aguardam() == old(self).aguardam() && forall|x: Seq<char>|
                #[trigger] final(self).fila(x) == old(self).fila(x),
            saltos_de(old(self).traces(), de@) < MAX_SALTOS && !orcamento_estourado && de@ != destino@
                && tipo == TipoMensagem::Pedido && fecharia_ciclo_spec(old(self).esperas(), de@, destino@)
                ==> (r matches Entrega::Recusada(Erro::Invalido(m)) && m@ == frase_espera_cruzada(
                nome_destino@,
            )) && final(self).estados() == com_sessao(old(self).estados(), destino@) && final(self).traces() == old(self).traces() && final(self).esperas() == old(self).esperas() && final(self).aguardam() == old(self).aguardam() && forall|x: Seq<char>|
                #[trigger] final(self).fila(x) == old(self).fila(x),
            entrega_passa(old(self).traces(), old(self).esperas(), de@, destino@, tipo, orcamento_estourado)
                ==> (r matches Entrega::Entregue { trace, turno } && trace.saltos == saltos_de(
                old(self).traces(),
                de@,
            ) + 1 && (old(self).traces().contains_key(de@) ==> trace.id@ == old(self).traces()[de@].id@) && exists|p: Pendencia|
                #[trigger] de_outro_no(p, corpo@, origem_node@, trace, espera_de(tipo, de@)) && turno
                    == puxado(
                    com_sessao(old(self).estados(), destino@),
                    old(self).fila(destino@).push(p),
                    destino@,
                ) && final(self).fila(destino@) == fila_puxada(
                    com_sessao(old(self).estados(), destino@),
                    old(self).fila(destino@).push(p),
                    destino@,
                ) && final(self).traces() == traces_puxados(
                    com_sessao(old(self).estados(), destino@),
                    old(self).fila(destino@).push(p),
                    old(self).traces(),
                    destino@,
                ) && final(self).aguardam() == aguardam_puxados(
                    com_sessao(old(self).estados(), destino@),
                    old(self).fila(destino@).push(p),
                    old(self).aguardam(),
                    destino@,
                ) && final(self).estados() == bloqueado(
                    estados_puxados(
                        com_sessao(old(self).estados(), destino@),
                        old(self).fila(destino@).push(p),
                        destino@,
                    ),
                    tipo,
                    de@,
                )),
            entrega_passa(old(self).traces(), old(self).esperas(), de@, destino@, tipo, orcamento_estourado)
                ==> final(self).esperas() == (if tipo == TipoMensagem::Pedido {
                old(self).esperas().insert(de@, destino@)
            } else {
                old(self).esperas()
            }),
            entrega_passa(old(self).traces(), old(self).esperas(), de@, destino@, tipo, orcamento_estourado)
                ==> forall|x: Seq<char>|
                x != destino@ ==> #[trigger] final(self).fila(x) == old(self).fila(x),
            final(self).acumulados() == old(self).acumulados(),
    {
        let atual = match self.traces.obter(de) {
            Some(t) => copia_trace(t),
            None => Trace::novo(),
        };
        let trace = match proximo_salto(&atual) {
            Ok(t) => t,
            Err(recusa) => {
                return Entrega::Encerrada { trace_id: atual.id, motivo: motivo_por_saltos(), recusa };
            },
        };
        if orcamento_estourado {
            return Entrega::Encerrada {
                trace_id: atual.id,
                motivo: motivo_por_orcamento(),
                recusa: recusa_por_orcamento(),
            };
        }
        let _ = self.abrir_sessao(destino);
        let ghost aberto = *self;
        let pedido = tipo == TipoMensagem::Pedido;
        let fecharia = pedido && self.esperas.fecharia_ciclo(de, destino);
        match checar_destino(de, destino, tipo, fecharia, nome_destino) {
            Err(e) => return Entrega::Recusada(e),
            Ok(()) => {},
        }
        let pendencia = Pendencia {
            texto: corpo.to_string(),
            papel: PapelMensagem::No,
            origem_node: Some(origem_node.to_string()),
            trace: copia_trace(&trace),
            quem_espera: if pedido { Some(de.to_string()) } else { None },
        };
        let ghost gp = pendencia;
        let turno = self.enfileirar(destino, pendencia);
        let ghost depois = *self;
        if pedido {
            self.esperas.bloquear(de, destino);
            self.estados.inserir(de, EstadoSessao::AguardandoNo);
        }
        proof {
            let est0 = com_sessao(old(self).estados(), destino@);
            assert(aberto.estados() == est0);
            assert(de_outro_no(gp, corpo@, origem_node@, trace, espera_de(tipo, de@)));
            assert forall|x: Seq<char>| x != destino@ implies #[trigger] self.fila(x) == old(self).fila(x) by {
                assert(aberto.fila(x) == old(self).fila(x));
                assert(depois.fila(x) == aberto.fila(x));
            }
            // A pendência que entrou na fila é a testemunha.
            assert(exists|p: Pendencia|
                #[trigger] de_outro_no(p, corpo@, origem_node@, trace, espera_de(tipo, de@)) && turno
                    == puxado(est0, old(self).fila(destino@).push(p), destino@)
                    && self.fila(destino@) == fila_puxada(est0, old(self).fila(destino@).push(p), destino@)
                    && self.traces() == traces_puxados(est0, old(self).fila(destino@).push(p), old(self).traces(), destino@)
                    && self.aguardam() == aguardam_puxados(est0, old(self).fila(destino@).push(p), old(self).aguardam(), destino@)
                    && self.estados() == bloqueado(estados_puxados(est0, old(self).fila(destino@).push(p), destino@), tipo, de@));
        }
        let ghost gt = trace;
        let ghost gturno = turno;
        let r = Entrega::Entregue { trace, turno };
        assert(r matches Entrega::Entregue { trace: t2, turno: u2 } && t2 == gt && u2 == gturno);
        r
    }

    /// A espera de `de` acabou (a resposta chegou, o prazo passou ou o outro
    /// lado sumiu): ele deixa de esperar e volta a pensar.
    pub fn soltar_espera(&mut self, de: &str)
        ensures
            final(self).esperas() == old(self).esperas().remove(de@),
            old(self).estados().contains_key(de@) ==> final(self).estados() == old(self).estados().insert(de@, EstadoSessao::Pensando),
            !old(self).estados().contains_key(de@) ==> final(self).estados() == old(self).estados(),
            forall|x: Seq<char>| #[trigger] final(self).fila(x) == old(self).fila(x),
            final(self).traces() == old(self).traces(),
            final(self).aguardam() == old(self).aguardam(),
            final(self).perguntas() == old(self).perguntas(),
            final(self).url_spec() == old(self).url_spec(),
            final(self).acumulados() == old(self).acumulados(),
    {
        self.esperas.soltar(de);
        if self.estados.obter(de).is_some() {
            self.estados.inserir(de, EstadoSessao::Pensando);
        }
    }

    /// Interrompe o turno de uma sessão.
    ///
    /// Quem esperava a resposta deste nó é solto, e a espera deste nó por
    /// outro também; o que estava na fila dele é jogado fora — cancelar é
    /// cancelar o que estava por vir, não só o que estava em curso. Um nó em
    /// andamento volta a ocioso à força (de `aguardando_no` não se vai direto
    /// a ocioso na tabela, e passar por erro seria mentir sobre o que houve);
    /// um nó já ocioso fica como está, e cancelar de novo não faz nada. Sessão
    /// desconhecida é `nao_encontrado`.
    pub fn cancelar(&mut self, s: &str) -> (r: Result<Cancelamento, Erro>)
        ensures
            !old(self).estados().contains_key(s@) ==> (r matches Err(Erro::NaoEncontrado { tipo, id })
                && tipo@ == "sessão"@ && id@ == s@) && *final(self) == *old(self),
            old(self).estados().contains_key(s@) ==> (r matches Ok(c) && (c.responder_a is Some
                <==> old(self).aguardam().contains_key(s@)) && (c.responder_a matches Some(q) ==> q@
                == old(self).aguardam()[s@]) && (c.soltar_de is Some <==> old(self).esperas().contains_key(s@)
                && old(self).aguardam().remove(s@).contains_key(old(self).esperas()[s@]))
                && (c.soltar_de matches Some(o) ==> o@ == old(self).esperas()[s@]) && c.interrompeu
                == (old(self).estados()[s@] != EstadoSessao::Ocioso)),
            old(self).estados().contains_key(s@) ==> final(self).aguardam() == aguardam_sem(
                old(self).aguardam(),
                old(self).esperas(),
                s@,
            ) && final(self).fila(s@) == Seq::<Pendencia>::empty() && final(self).estados() == (
            if old(self).estados()[s@] != EstadoSessao::Ocioso {
                old(self).estados().insert(s@, EstadoSessao::Ocioso)
            } else {
                old(self).estados()
            }),
            old(self).estados().contains_key(s@) ==> final(self).acumulados() == old(self).acumulados().remove(s@),
            forall|x: Seq<char>| x != s@ ==> #[trigger] final(self).fila(x) == old(self).fila(x),
            final(self).traces() == old(self).traces(),
            final(self).esperas() == old(self).esperas(),
            final(self).perguntas() == old(self).perguntas(),
            final(self).url_spec() == old(self).url_spec(),
    {
        let e0 = match self.estados.obter(s) {
            Some(e) => *e,
            None => return Err(Erro::nao_encontrado("sessão", s)),
        };
        let ghost c0 = self.acumulados();
        let _ = self.acumulados.remover(s);
        assert(self.acumulados() =~= c0.remove(s@));
        let ghost a0 = self.aguardam();
        let responder_a = self.aguardam.remover(s);
        assert(self.aguardam() =~= a0.remove(s@));
        let soltar_de = match self.esperas.esperado_por(s) {
            Some(outro) => {
                let ghost a1 = self.aguardam();
                let tirado = self.aguardam.remover(outro.as_str());
                assert(self.aguardam() =~= a1.remove(outro@));
                match tirado {
                    Some(_) => Some(outro),
                    None => None,
                }
            },
            None => None,
        };
        self.filas.descartar(s);
        assert(self.fila(s@) =~= Seq::<Pendencia>::empty());
        let interrompeu = cancelar_muda_estado(e0);
        if interrompeu {
            self.estados.inserir(s, EstadoSessao::Ocioso);
        }
        Ok(Cancelamento { responder_a, soltar_de, interrompeu })
    }
}


/// Um turno por vez por nó: depois que um turno começa numa sessão, o que
/// chegar a ela entra na fila e não começa nada até o turno acabar.
pub proof fn lei_um_turno_por_vez(
    estados: Map<Seq<char>, EstadoSessao>,
    fila: Seq<Pendencia>,
    s: Seq<char>,
    p: Pendencia,
    q: Pendencia,
)
    requires
        puxado(estados, fila.push(p), s) is Some,
    ensures
        puxado(
            estados_puxados(estados, fila.push(p), s),
            fila_puxada(estados, fila.push(p), s).push(q),
            s,
        ) is None,
        fila_puxada(
            estados_puxados(estados, fila.push(p), s),
            fila_puxada(estados, fila.push(p), s).push(q),
            s,
        ) == fila_puxada(estados, fila.push(p), s).push(q),
{
}

/// Quem chega primeiro é atendido primeiro: quando o turno acaba (com sino
/// aceito ou com erro), o que começa é o mais antigo da fila.
pub proof fn lei_fim_de_turno_puxa_o_mais_antigo(
    estados: Map<Seq<char>, EstadoSessao>,
    fila: Seq<Pendencia>,
    s: Seq<char>,
    e: EventoAgente,
)
    requires
        estados.contains_key(s),
        fila.len() > 0,
        fim_aceito(estados[s], e),
    ensures
        puxado(estados.insert(s, estado_apos_spec(e)->0), fila, s) == Some(fila[0]),
        fila_puxada(estados.insert(s, estado_apos_spec(e)->0), fila, s) == fila.drop_first(),
{
}

/// Um nó nunca fica pensando à toa depois de um erro: ou ele fica em erro,
/// aceitando turno novo, ou o próximo da fila já começou.
pub proof fn lei_erro_libera_o_no(
    estados: Map<Seq<char>, EstadoSessao>,
    fila: Seq<Pendencia>,
    s: Seq<char>,
)
    ensures
        ({
            let depois = estados_puxados(estados.insert(s, EstadoSessao::Erro), fila, s);
            &&& fila.len() == 0 ==> depois[s] == EstadoSessao::Erro && depois[s].spec_aceita_turno()
            &&& fila.len() > 0 ==> depois[s] == EstadoSessao::Pensando && puxado(
                estados.insert(s, EstadoSessao::Erro),
                fila,
                s,
            ) == Some(fila[0])
        }),
{
}

/// Cancelar duas vezes não estraga nada: depois do primeiro, a sessão está
/// ociosa, sem fila e sem ninguém esperando por ela, e o segundo não
/// interrompe nem muda estado.
pub proof fn lei_cancelar_duas_vezes(
    estados: Map<Seq<char>, EstadoSessao>,
    aguardam: Map<Seq<char>, Seq<char>>,
    esperas: Map<Seq<char>, Seq<char>>,
    s: Seq<char>,
)
    requires
        estados.contains_key(s),
    ensures
        ({
            let est1 = if estados[s] != EstadoSessao::Ocioso {
                estados.insert(s, EstadoSessao::Ocioso)
            } else {
                estados
            };
            let ag1 = aguardam_sem(aguardam, esperas, s);
            &&& est1[s] == EstadoSessao::Ocioso
            &&& !ag1.contains_key(s)
            &&& aguardam_sem(ag1, esperas, s) == ag1
        }),
{
    let ag1 = aguardam_sem(aguardam, esperas, s);
    if esperas.contains_key(s) {
        assert(ag1.remove(s).remove(esperas[s]) =~= ag1);
    } else {
        assert(ag1.remove(s) =~= ag1);
    }
}

} // verus!
